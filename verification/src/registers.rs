//! The registers of the virtual machine, and how assembly text names them.
use vstd::prelude::*;

verus! {

/// The identifier of a register of the virtual machine.
#[derive(Clone, Copy, Debug, PartialEq, Eq, Hash, Structural)]
pub enum RegisterId {
    /// Data register 1.
    ER1,
    /// Data register 2.
    ER2,
    /// Data register 3.
    ER3,
    /// Data register 4.
    ER4,
    /// Data register 5.
    ER5,
    /// Data register 6.
    ER6,
    /// Data register 7.
    ER7,
    /// Data register 8.
    ER8,
    /// Instruction pointer register.
    EIP,
    /// Stack frame base pointer register.
    EBP,
    /// Stack pointer register.
    ESP,
    /// Flags register.
    EFL,
    /// Interrupt mask register.
    EIM,
    /// Interrupt descriptor table register.
    IDTR,
    /// Stack segment register.
    ESS,
    /// Code segment register.
    ECS,
    /// Data segment register.
    EDS,
    /// Floating-point register 1.
    FR1,
    /// Floating-point register 2.
    FR2,
}

/// The number of registers.
pub const REGISTER_COUNT: u8 = 19;

/// The name by which assembly text refers to a register.
pub open spec fn register_name(r: RegisterId) -> Seq<char> {
    match r {
        RegisterId::ER1 => seq!['E', 'R', '1'],
        RegisterId::ER2 => seq!['E', 'R', '2'],
        RegisterId::ER3 => seq!['E', 'R', '3'],
        RegisterId::ER4 => seq!['E', 'R', '4'],
        RegisterId::ER5 => seq!['E', 'R', '5'],
        RegisterId::ER6 => seq!['E', 'R', '6'],
        RegisterId::ER7 => seq!['E', 'R', '7'],
        RegisterId::ER8 => seq!['E', 'R', '8'],
        RegisterId::EIP => seq!['E', 'I', 'P'],
        RegisterId::EBP => seq!['E', 'B', 'P'],
        RegisterId::ESP => seq!['E', 'S', 'P'],
        RegisterId::EFL => seq!['E', 'F', 'L'],
        RegisterId::EIM => seq!['E', 'I', 'M'],
        RegisterId::IDTR => seq!['I', 'D', 'T', 'R'],
        RegisterId::ESS => seq!['E', 'S', 'S'],
        RegisterId::ECS => seq!['E', 'C', 'S'],
        RegisterId::EDS => seq!['E', 'D', 'S'],
        RegisterId::FR1 => seq!['F', 'R', '1'],
        RegisterId::FR2 => seq!['F', 'R', '2'],
    }
}

/// The number of a register: its position in the declaration order.
pub open spec fn register_code(r: RegisterId) -> u8 {
    match r {
        RegisterId::ER1 => 0,
        RegisterId::ER2 => 1,
        RegisterId::ER3 => 2,
        RegisterId::ER4 => 3,
        RegisterId::ER5 => 4,
        RegisterId::ER6 => 5,
        RegisterId::ER7 => 6,
        RegisterId::ER8 => 7,
        RegisterId::EIP => 8,
        RegisterId::EBP => 9,
        RegisterId::ESP => 10,
        RegisterId::EFL => 11,
        RegisterId::EIM => 12,
        RegisterId::IDTR => 13,
        RegisterId::ESS => 14,
        RegisterId::ECS => 15,
        RegisterId::EDS => 16,
        RegisterId::FR1 => 17,
        RegisterId::FR2 => 18,
    }
}

/// The registers that hold a 32-bit unsigned integer.
pub open spec fn is_u32_register(r: RegisterId) -> bool {
    !is_f32_register(r)
}

/// The registers that hold a 32-bit floating-point value.
pub open spec fn is_f32_register(r: RegisterId) -> bool {
    r == RegisterId::FR1 || r == RegisterId::FR2
}

/// The register whose name is `s`, if there is one.
pub open spec fn register_named(s: Seq<char>) -> Option<RegisterId> {
    if exists|r: RegisterId| register_name(r) == s {
        Some(choose|r: RegisterId| register_name(r) == s)
    } else {
        None
    }
}

/// No two registers share a name.
pub proof fn lemma_register_names_distinct(a: RegisterId, b: RegisterId)
    ensures
        register_name(a) == register_name(b) ==> a == b,
{
    if register_name(a) == register_name(b) {
        assert(register_name(a).len() == register_name(b).len());
        assert(register_name(a)[0] == register_name(b)[0]);
        assert(register_name(a)[1] == register_name(b)[1]);
        assert(register_name(a)[2] == register_name(b)[2]);
        if register_name(a).len() == 4 {
            assert(register_name(a)[3] == register_name(b)[3]);
        }
    }
}

/// A register's name starts with `E`, `I` or `F`.
pub proof fn lemma_register_name_start(r: RegisterId)
    ensures
        register_name(r).len() >= 3,
        register_name(r)[0] == 'E' || register_name(r)[0] == 'I' || register_name(r)[0] == 'F',
{
}

/// No two registers share a number, and every number below the register count belongs to one.
pub proof fn lemma_register_codes(a: RegisterId, b: RegisterId)
    ensures
        register_code(a) == register_code(b) ==> a == b,
        register_code(a) < REGISTER_COUNT,
{
}

/// Every number below the register count belongs to a register.
pub proof fn lemma_register_code_exists(c: u8)
    requires
        c < REGISTER_COUNT,
    ensures
        exists|r: RegisterId| register_code(r) == c,
{
    let all = seq![
        RegisterId::ER1, RegisterId::ER2, RegisterId::ER3, RegisterId::ER4, RegisterId::ER5,
        RegisterId::ER6, RegisterId::ER7, RegisterId::ER8, RegisterId::EIP, RegisterId::EBP,
        RegisterId::ESP, RegisterId::EFL, RegisterId::EIM, RegisterId::IDTR, RegisterId::ESS,
        RegisterId::ECS, RegisterId::EDS, RegisterId::FR1, RegisterId::FR2,
    ];
    assert(register_code(all[c as int]) == c);
}

impl RegisterId {
    /// The register with the number `code`, if there is one.
    pub fn from_code(code: u8) -> (r: Option<RegisterId>)
        ensures
            match r {
                Some(reg) => register_code(reg) == code,
                None => code >= REGISTER_COUNT,
            },
    {
        match code {
            0 => Some(RegisterId::ER1),
            1 => Some(RegisterId::ER2),
            2 => Some(RegisterId::ER3),
            3 => Some(RegisterId::ER4),
            4 => Some(RegisterId::ER5),
            5 => Some(RegisterId::ER6),
            6 => Some(RegisterId::ER7),
            7 => Some(RegisterId::ER8),
            8 => Some(RegisterId::EIP),
            9 => Some(RegisterId::EBP),
            10 => Some(RegisterId::ESP),
            11 => Some(RegisterId::EFL),
            12 => Some(RegisterId::EIM),
            13 => Some(RegisterId::IDTR),
            14 => Some(RegisterId::ESS),
            15 => Some(RegisterId::ECS),
            16 => Some(RegisterId::EDS),
            17 => Some(RegisterId::FR1),
            18 => Some(RegisterId::FR2),
            _ => None,
        }
    }

    /// The number of this register.
    pub fn code(&self) -> (c: u8)
        ensures
            c == register_code(*self),
    {
        match self {
            RegisterId::ER1 => 0,
            RegisterId::ER2 => 1,
            RegisterId::ER3 => 2,
            RegisterId::ER4 => 3,
            RegisterId::ER5 => 4,
            RegisterId::ER6 => 5,
            RegisterId::ER7 => 6,
            RegisterId::ER8 => 7,
            RegisterId::EIP => 8,
            RegisterId::EBP => 9,
            RegisterId::ESP => 10,
            RegisterId::EFL => 11,
            RegisterId::EIM => 12,
            RegisterId::IDTR => 13,
            RegisterId::ESS => 14,
            RegisterId::ECS => 15,
            RegisterId::EDS => 16,
            RegisterId::FR1 => 17,
            RegisterId::FR2 => 18,
        }
    }

    /// The characters of this register's name.
    pub fn name_chars(&self) -> (v: Vec<char>)
        ensures
            v@ == register_name(*self),
    {
        let v = match self {
            RegisterId::ER1 => vec!['E', 'R', '1'],
            RegisterId::ER2 => vec!['E', 'R', '2'],
            RegisterId::ER3 => vec!['E', 'R', '3'],
            RegisterId::ER4 => vec!['E', 'R', '4'],
            RegisterId::ER5 => vec!['E', 'R', '5'],
            RegisterId::ER6 => vec!['E', 'R', '6'],
            RegisterId::ER7 => vec!['E', 'R', '7'],
            RegisterId::ER8 => vec!['E', 'R', '8'],
            RegisterId::EIP => vec!['E', 'I', 'P'],
            RegisterId::EBP => vec!['E', 'B', 'P'],
            RegisterId::ESP => vec!['E', 'S', 'P'],
            RegisterId::EFL => vec!['E', 'F', 'L'],
            RegisterId::EIM => vec!['E', 'I', 'M'],
            RegisterId::IDTR => vec!['I', 'D', 'T', 'R'],
            RegisterId::ESS => vec!['E', 'S', 'S'],
            RegisterId::ECS => vec!['E', 'C', 'S'],
            RegisterId::EDS => vec!['E', 'D', 'S'],
            RegisterId::FR1 => vec!['F', 'R', '1'],
            RegisterId::FR2 => vec!['F', 'R', '2'],
        };
        assert(v@ =~= register_name(*self));
        v
    }

    /// Whether this register holds a 32-bit unsigned integer.
    pub fn is_u32(&self) -> (b: bool)
        ensures
            b == is_u32_register(*self),
    {
        !self.is_f32()
    }

    /// Whether this register holds a 32-bit floating-point value.
    pub fn is_f32(&self) -> (b: bool)
        ensures
            b == is_f32_register(*self),
    {
        match self {
            RegisterId::FR1 | RegisterId::FR2 => true,
            _ => false,
        }
    }

    /// Look up a register by its name, which is matched exactly (letters in upper case).
    pub fn from_name(s: &[char]) -> (r: Option<RegisterId>)
        ensures
            r == register_named(s@),
    {
        let mut code: u8 = 0;
        while code < REGISTER_COUNT
            invariant
                code <= REGISTER_COUNT,
                forall|r: RegisterId| register_code(r) < code ==> register_name(r) != s@,
            decreases REGISTER_COUNT - code,
        {
            let reg = RegisterId::from_code(code).unwrap();
            let name = reg.name_chars();
            if chars_equal(&name, s) {
                proof {
                    lemma_register_name_round_trip(reg);
                }
                return Some(reg);
            }
            code = code + 1;
        }
        assert forall|r: RegisterId| register_name(r) != s@ by {
            lemma_register_codes(r, r);
        }
        None
    }
}

/// Looking a register up by its name gives the register back.
pub proof fn lemma_register_name_round_trip(reg: RegisterId)
    ensures
        register_named(register_name(reg)) == Some(reg),
{
    let c = choose|r: RegisterId| register_name(r) == register_name(reg);
    lemma_register_names_distinct(c, reg);
}

/// Whether two character sequences are equal.
pub fn chars_equal(a: &[char], b: &[char]) -> (eq: bool)
    ensures
        eq == (a@ == b@),
{
    if a.len() != b.len() {
        return false;
    }
    let mut i: usize = 0;
    while i < a.len()
        invariant
            i <= a.len(),
            a.len() == b.len(),
            forall|j: int| 0 <= j < i ==> a@[j] == b@[j],
        decreases a.len() - i,
    {
        if a[i] != b[i] {
            return false;
        }
        i = i + 1;
    }
    assert(a@ =~= b@);
    true
}

} // verus!
