//! The sixteen registers that a three-bit code and a width flag name.

use vstd::prelude::*;

verus! {

/// A byte or word register of the 8086.
#[derive(Copy, Clone, Debug, PartialEq, Eq, Structural)]
pub enum Register {
    AL,
    CL,
    DL,
    BL,
    AH,
    CH,
    DH,
    BH,
    AX,
    CX,
    DX,
    BX,
    SP,
    BP,
    SI,
    DI,
}

/// The number that three bits denote, `b0` being the most significant.
pub open spec fn code_of_bits(b0: bool, b1: bool, b2: bool) -> nat {
    (if b0 { 4nat } else { 0nat }) + (if b1 { 2nat } else { 0nat }) + (if b2 { 1nat } else { 0nat })
}

impl Register {
    /// The register that `code` names at the given width.
    /// Codes above 7 do not occur; they are read like 7.
    pub open spec fn of_code(code: nat, wide: bool) -> Register {
        if wide {
            if code == 0 {
                Register::AX
            } else if code == 1 {
                Register::CX
            } else if code == 2 {
                Register::DX
            } else if code == 3 {
                Register::BX
            } else if code == 4 {
                Register::SP
            } else if code == 5 {
                Register::BP
            } else if code == 6 {
                Register::SI
            } else {
                Register::DI
            }
        } else {
            if code == 0 {
                Register::AL
            } else if code == 1 {
                Register::CL
            } else if code == 2 {
                Register::DL
            } else if code == 3 {
                Register::BL
            } else if code == 4 {
                Register::AH
            } else if code == 5 {
                Register::CH
            } else if code == 6 {
                Register::DH
            } else {
                Register::BH
            }
        }
    }

    /// The register that three bits name at the given width.
    pub open spec fn of_bits(b0: bool, b1: bool, b2: bool, wide: bool) -> Register {
        Register::of_code(code_of_bits(b0, b1, b2), wide)
    }

    /// Whether the register holds a word.
    pub open spec fn is_wide(self) -> bool {
        match self {
            Register::AX
            | Register::CX
            | Register::DX
            | Register::BX
            | Register::SP
            | Register::BP
            | Register::SI
            | Register::DI => true,
            _ => false,
        }
    }

    /// The three-bit code of the register within its width class.
    pub open spec fn code(self) -> nat {
        match self {
            Register::AL | Register::AX => 0,
            Register::CL | Register::CX => 1,
            Register::DL | Register::DX => 2,
            Register::BL | Register::BX => 3,
            Register::AH | Register::SP => 4,
            Register::CH | Register::BP => 5,
            Register::DH | Register::SI => 6,
            Register::BH | Register::DI => 7,
        }
    }

    /// The name of the register as assembly text writes it.
    pub open spec fn spec_name(self) -> Seq<char> {
        match self {
            Register::AL => "al"@,
            Register::CL => "cl"@,
            Register::DL => "dl"@,
            Register::BL => "bl"@,
            Register::AH => "ah"@,
            Register::CH => "ch"@,
            Register::DH => "dh"@,
            Register::BH => "bh"@,
            Register::AX => "ax"@,
            Register::CX => "cx"@,
            Register::DX => "dx"@,
            Register::BX => "bx"@,
            Register::SP => "sp"@,
            Register::BP => "bp"@,
            Register::SI => "si"@,
            Register::DI => "di"@,
        }
    }

    /// Resolves a three-bit register field, most significant bit first.
    pub fn from_bits(bits: &[bool; 3], wide: bool) -> (reg: Register)
        ensures
            reg == Register::of_bits(bits[0], bits[1], bits[2], wide),
    {
        let b0: bool = bits[0];
        let b1: bool = bits[1];
        let b2: bool = bits[2];
        if wide {
            match (b0, b1, b2) {
                (false, false, false) => Register::AX,
                (false, false, true) => Register::CX,
                (false, true, false) => Register::DX,
                (false, true, true) => Register::BX,
                (true, false, false) => Register::SP,
                (true, false, true) => Register::BP,
                (true, true, false) => Register::SI,
                (true, true, true) => Register::DI,
            }
        } else {
            match (b0, b1, b2) {
                (false, false, false) => Register::AL,
                (false, false, true) => Register::CL,
                (false, true, false) => Register::DL,
                (false, true, true) => Register::BL,
                (true, false, false) => Register::AH,
                (true, false, true) => Register::CH,
                (true, true, false) => Register::DH,
                (true, true, true) => Register::BH,
            }
        }
    }

    /// The name of the register as assembly text writes it.
    pub fn name(&self) -> (text: &'static str)
        ensures
            text@ == self.spec_name(),
    {
        match self {
            Register::AL => "al",
            Register::CL => "cl",
            Register::DL => "dl",
            Register::BL => "bl",
            Register::AH => "ah",
            Register::CH => "ch",
            Register::DH => "dh",
            Register::BH => "bh",
            Register::AX => "ax",
            Register::CX => "cx",
            Register::DX => "dx",
            Register::BX => "bx",
            Register::SP => "sp",
            Register::BP => "bp",
            Register::SI => "si",
            Register::DI => "di",
        }
    }
}

/// Makes the characters of the sixteen register names known.
pub proof fn lemma_register_names()
    ensures
        "al"@ == seq!['a', 'l'],
        "cl"@ == seq!['c', 'l'],
        "dl"@ == seq!['d', 'l'],
        "bl"@ == seq!['b', 'l'],
        "ah"@ == seq!['a', 'h'],
        "ch"@ == seq!['c', 'h'],
        "dh"@ == seq!['d', 'h'],
        "bh"@ == seq!['b', 'h'],
        "ax"@ == seq!['a', 'x'],
        "cx"@ == seq!['c', 'x'],
        "dx"@ == seq!['d', 'x'],
        "bx"@ == seq!['b', 'x'],
        "sp"@ == seq!['s', 'p'],
        "bp"@ == seq!['b', 'p'],
        "si"@ == seq!['s', 'i'],
        "di"@ == seq!['d', 'i'],
{
    reveal_strlit("al");
    reveal_strlit("cl");
    reveal_strlit("dl");
    reveal_strlit("bl");
    reveal_strlit("ah");
    reveal_strlit("ch");
    reveal_strlit("dh");
    reveal_strlit("bh");
    reveal_strlit("ax");
    reveal_strlit("cx");
    reveal_strlit("dx");
    reveal_strlit("bx");
    reveal_strlit("sp");
    reveal_strlit("bp");
    reveal_strlit("si");
    reveal_strlit("di");
    assert("al"@ =~= seq!['a', 'l']);
    assert("cl"@ =~= seq!['c', 'l']);
    assert("dl"@ =~= seq!['d', 'l']);
    assert("bl"@ =~= seq!['b', 'l']);
    assert("ah"@ =~= seq!['a', 'h']);
    assert("ch"@ =~= seq!['c', 'h']);
    assert("dh"@ =~= seq!['d', 'h']);
    assert("bh"@ =~= seq!['b', 'h']);
    assert("ax"@ =~= seq!['a', 'x']);
    assert("cx"@ =~= seq!['c', 'x']);
    assert("dx"@ =~= seq!['d', 'x']);
    assert("bx"@ =~= seq!['b', 'x']);
    assert("sp"@ =~= seq!['s', 'p']);
    assert("bp"@ =~= seq!['b', 'p']);
    assert("si"@ =~= seq!['s', 'i']);
    assert("di"@ =~= seq!['d', 'i']);
}

/// Two registers with the same name are the same register: the sixteen
/// names are pairwise distinct.
pub proof fn lemma_register_name_injective(r1: Register, r2: Register)
    requires
        r1.spec_name() == r2.spec_name(),
    ensures
        r1 == r2,
{
    lemma_register_names();
    let n1 = r1.spec_name();
    let n2 = r2.spec_name();
    assert(n1[0] == n2[0]);
    assert(n1[1] == n2[1]);
}

/// Every three-bit code names, at either width, exactly one register of
/// that width, and different codes name different registers with different
/// names: within each width class the table is a bijection onto eight
/// distinct names.
pub proof fn lemma_register_table(c1: nat, c2: nat, wide: bool)
    requires
        c1 < 8,
        c2 < 8,
    ensures
        Register::of_code(c1, wide).is_wide() == wide,
        Register::of_code(c1, wide).code() == c1,
        Register::of_code(c1, wide) == Register::of_code(c2, wide) ==> c1 == c2,
        Register::of_code(c1, wide).spec_name() == Register::of_code(c2, wide).spec_name() ==> c1
            == c2,
        Register::of_code(c1, wide).spec_name().len() == 2,
{
    lemma_register_names();
    if Register::of_code(c1, wide).spec_name() == Register::of_code(c2, wide).spec_name() {
        lemma_register_name_injective(Register::of_code(c1, wide), Register::of_code(c2, wide));
    }
}

} // verus!
