//! Structured per-step trace record: the values an instruction read and
//! committed, and the text projection used for golden-log comparison.

use vstd::prelude::*;

use crate::inst::{spec_inst_text, spec_reg_name, Instruction, Register};
use crate::textfmt::{chars_to_string, push_hex_fixed, push_str_chars, spec_hex_fixed};

verus! {

/// Where a traced value came from: a register, or a memory access of
/// 1, 2 or 4 bytes at a given address.
#[derive(Debug, Clone, Copy, PartialEq, Eq, Structural)]
pub enum ValueOrigin {
    Register(Register),
    Memory { adr: u32, bytes: u32 },
}

/// A traced 32-bit value together with its origin. Values narrower than a
/// word are zero-extended into `val`, the width being recorded in the
/// origin.
#[derive(Debug, Clone, Copy, PartialEq, Eq, Structural)]
pub struct Value {
    pub origin: ValueOrigin,
    pub val: u32,
}

/// Log record of one executed instruction: the fetch address, the decoded
/// instruction, the values read (in program order), the values committed,
/// and the branch target when the instruction overwrote the program
/// counter instead of advancing it by four.
#[derive(Debug)]
pub struct InstLog {
    pub pc: u32,
    pub inst: Instruction,
    pub handling_trap: bool,
    pub branching: Option<u32>,
    pub debug_mode: bool,
    pub input_values: Vec<Value>,
    pub commit_values: Vec<Value>,
}

impl Value {
    /// A value read from or committed to a register.
    pub fn register_value(reg: Register, val: u32) -> (r: Value)
        ensures
            r == (Value { origin: ValueOrigin::Register(reg), val }),
    {
        Value { origin: ValueOrigin::Register(reg), val }
    }

    /// A value read from or committed to memory at `adr`, `bytes` wide.
    pub fn memory_value(adr: u32, bytes: u32, val: u32) -> (r: Value)
        ensures
            r == (Value { origin: ValueOrigin::Memory { adr, bytes }, val }),
    {
        Value { origin: ValueOrigin::Memory { adr, bytes }, val }
    }
}

/// A traced value the text projection can render: a memory origin is 1,
/// 2 or 4 bytes wide.
pub open spec fn value_wf(v: Value) -> bool {
    match v.origin {
        ValueOrigin::Register(_) => true,
        ValueOrigin::Memory { bytes, .. } => bytes == 1 || bytes == 2 || bytes == 4,
    }
}

/// The address width a memory value is rendered with: two hex digits per
/// accessed byte.
pub open spec fn adr_digits(bytes: u32) -> nat {
    if bytes == 1 {
        2
    } else if bytes == 2 {
        4
    } else {
        8
    }
}

/// The text of a traced value: `X3 = 0x00000100` for registers,
/// `mem[0x02000000] = 0xdeadbeef` for memory, the address width chosen
/// by the access width.
pub open spec fn spec_value_text(v: Value) -> Seq<char> {
    match v.origin {
        ValueOrigin::Register(r) => spec_reg_name(r) + " = 0x"@ + spec_hex_fixed(v.val as int, 8),
        ValueOrigin::Memory { adr, bytes } => "mem[0x"@ + spec_hex_fixed(
            adr as int,
            adr_digits(bytes),
        ) + "] = 0x"@ + spec_hex_fixed(v.val as int, 8),
    }
}

impl Value {
    /// Append this value's text.
    pub fn push_text(&self, out: &mut Vec<char>)
        requires
            value_wf(*self),
        ensures
            final(out)@ == old(out)@ + spec_value_text(*self),
    {
        match self.origin {
            ValueOrigin::Register(r) => {
                crate::inst::push_reg_name(out, r);
                push_str_chars(out, " = 0x");
                push_hex_fixed(out, self.val, 8);
            },
            ValueOrigin::Memory { adr, bytes } => {
                push_str_chars(out, "mem[0x");
                if bytes == 1 {
                    push_hex_fixed(out, adr, 2);
                } else if bytes == 2 {
                    push_hex_fixed(out, adr, 4);
                } else {
                    push_hex_fixed(out, adr, 8);
                }
                push_str_chars(out, "] = 0x");
                push_hex_fixed(out, self.val, 8);
            },
        }
    }

    /// The text of this value.
    pub fn to_text(&self) -> (r: String)
        requires
            value_wf(*self),
        ensures
            r@ == spec_value_text(*self),
    {
        let mut out: Vec<char> = Vec::new();
        self.push_text(&mut out);
        chars_to_string(out)
    }
}

/// `n` spaces.
pub open spec fn spaces(n: nat) -> Seq<char> {
    Seq::new(n, |i: int| ' ')
}

/// `s` right-aligned in a field of 25 characters; longer text is kept
/// whole.
pub open spec fn pad25(s: Seq<char>) -> Seq<char> {
    if s.len() >= 25 {
        s
    } else {
        spaces((25 - s.len()) as nat) + s
    }
}

/// The comma-separated texts of a list of values.
pub open spec fn spec_values_join(vs: Seq<Value>) -> Seq<char>
    decreases vs.len(),
{
    if vs.len() == 0 {
        Seq::empty()
    } else if vs.len() == 1 {
        spec_value_text(vs[0])
    } else {
        spec_values_join(vs.drop_last()) + ", "@ + spec_value_text(vs.last())
    }
}

/// Every traced value in the record can be rendered.
pub open spec fn log_wf(l: InstLog) -> bool {
    &&& forall|i: int| 0 <= i < l.input_values@.len() ==> value_wf(#[trigger] l.input_values@[i])
    &&& forall|i: int| 0 <= i < l.commit_values@.len() ==> value_wf(#[trigger] l.commit_values@[i])
}

/// The one-line text of a log record: the fetch address, the trap and
/// debug flags, the instruction text right-aligned to 25 characters,
/// then the branch target and the input and commit lists, each present
/// only when non-empty.
pub open spec fn spec_log_line(l: InstLog) -> Seq<char> {
    "0x"@ + spec_hex_fixed(l.pc as int, 8) + ": ["@ + (if l.handling_trap {
        "T"@
    } else {
        " "@
    }) + (if l.debug_mode {
        "D"@
    } else {
        " "@
    }) + "] "@ + pad25(spec_inst_text(l.inst)) + " |"@ + (match l.branching {
        Some(d) => " Branching: 0x"@ + spec_hex_fixed(d as int, 8),
        None => Seq::empty(),
    }) + (if l.input_values@.len() > 0 {
        " Input: ["@ + spec_values_join(l.input_values@) + "]"@
    } else {
        Seq::empty()
    }) + (if l.commit_values@.len() > 0 {
        " Commited: ["@ + spec_values_join(l.commit_values@) + "]"@
    } else {
        Seq::empty()
    })
}

/// Append the comma-separated texts of `vals`.
fn push_values_join(out: &mut Vec<char>, vals: &Vec<Value>)
    requires
        forall|i: int| 0 <= i < vals@.len() ==> value_wf(#[trigger] vals@[i]),
    ensures
        final(out)@ == old(out)@ + spec_values_join(vals@),
{
    let n = vals.len();
    let mut i: usize = 0;
    while i < n
        invariant
            i <= n,
            n == vals@.len(),
            forall|k: int| 0 <= k < vals@.len() ==> value_wf(#[trigger] vals@[k]),
            out@ == old(out)@ + spec_values_join(vals@.take(i as int)),
        decreases n - i,
    {
        if i != 0 {
            push_str_chars(out, ", ");
        }
        vals[i].push_text(out);
        proof {
            assert(vals@.take(i + 1 as int).drop_last() =~= vals@.take(i as int));
            assert(vals@.take(i + 1 as int).last() == vals@[i as int]);
        }
        i = i + 1;
    }
    proof {
        assert(vals@.take(n as int) =~= vals@);
    }
}

impl InstLog {
    /// The one-line text of this record, as golden-log comparison
    /// consumes it.
    #[verifier::rlimit(100)]
    pub fn to_log_string(&self) -> (r: String)
        requires
            log_wf(*self),
        ensures
            r@ == spec_log_line(*self),
    {
        let mut out: Vec<char> = Vec::new();
        push_str_chars(&mut out, "0x");
        push_hex_fixed(&mut out, self.pc, 8);
        push_str_chars(&mut out, ": [");
        if self.handling_trap {
            push_str_chars(&mut out, "T");
        } else {
            push_str_chars(&mut out, " ");
        }
        if self.debug_mode {
            push_str_chars(&mut out, "D");
        } else {
            push_str_chars(&mut out, " ");
        }
        push_str_chars(&mut out, "] ");
        let mut text: Vec<char> = Vec::new();
        self.inst.push_text(&mut text);
        if text.len() < 25 {
            let pad: usize = 25 - text.len();
            let ghost base = out@;
            let mut k: usize = 0;
            while k < pad
                invariant
                    k <= pad,
                    out@ == base + spaces(k as nat),
                decreases pad - k,
            {
                out.push(' ');
                proof {
                    assert(out@ =~= base + spaces((k + 1) as nat));
                }
                k = k + 1;
            }
        }
        out.append(&mut text);
        push_str_chars(&mut out, " |");
        match self.branching {
            Some(d) => {
                push_str_chars(&mut out, " Branching: 0x");
                push_hex_fixed(&mut out, d, 8);
            },
            None => {},
        }
        if self.input_values.len() > 0 {
            push_str_chars(&mut out, " Input: [");
            push_values_join(&mut out, &self.input_values);
            push_str_chars(&mut out, "]");
        }
        if self.commit_values.len() > 0 {
            push_str_chars(&mut out, " Commited: [");
            push_values_join(&mut out, &self.commit_values);
            push_str_chars(&mut out, "]");
        }
        proof {
            assert(out@ =~= spec_log_line(*self));
        }
        chars_to_string(out)
    }
}

} // verus!
