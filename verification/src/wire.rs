//! How the server encodes values of Rust's primitive types, and what the
//! comparison operators and bound rules mean: the facts the generated
//! encoders, decoders and checks are held to.

use vstd::prelude::*;
use crate::model::ValidateRule;
use crate::text::dec_nat;

verus! {

/// How the server writes a number of the Rust type `t` (normalised): its
/// kind (`I` a signed integer, `U` an unsigned one, `F` a float) and its
/// width in bits, little-endian. `usize` travels as a 64-bit unsigned
/// integer.
pub open spec fn number_encoding(t: Seq<char>) -> Option<(char, nat)> {
    if t == "i8"@ {
        Some(('I', 8))
    } else if t == "i16"@ {
        Some(('I', 16))
    } else if t == "i32"@ {
        Some(('I', 32))
    } else if t == "i64"@ {
        Some(('I', 64))
    } else if t == "u8"@ {
        Some(('U', 8))
    } else if t == "u16"@ {
        Some(('U', 16))
    } else if t == "u32"@ {
        Some(('U', 32))
    } else if t == "u64"@ || t == "usize"@ {
        Some(('U', 64))
    } else if t == "f32"@ {
        Some(('F', 32))
    } else if t == "f64"@ {
        Some(('F', 64))
    } else {
        None
    }
}

/// The name suffix of the reader and writer methods for a number of kind
/// `k` and `b` bits, as the clients' binary readers and writers name them
/// (`I64` reads or writes eight bytes as a signed integer).
pub open spec fn width_suffix(k: char, b: nat) -> Seq<char> {
    seq![k] + dec_nat(b)
}

/// [`width_suffix`] in lower case, as the Rust client's reader and writer
/// name their methods (`read_i64`).
pub open spec fn width_suffix_lower(k: char, b: nat) -> Seq<char> {
    seq![if k == 'I' { 'i' } else if k == 'U' { 'u' } else { 'f' }] + dec_nat(b)
}

pub proof fn lemma_bit_texts()
    ensures
        dec_nat(8) == seq!['8'],
        dec_nat(16) == seq!['1', '6'],
        dec_nat(32) == seq!['3', '2'],
        dec_nat(64) == seq!['6', '4'],
{
    assert(dec_nat(1) == seq!['1']);
    assert(dec_nat(3) == seq!['3']);
    assert(dec_nat(6) == seq!['6']);
    assert(dec_nat(16) =~= seq!['1'].push('6'));
    assert(dec_nat(32) =~= seq!['3'].push('2'));
    assert(dec_nat(64) =~= seq!['6'].push('4'));
}

/// The names of the primitive number types, spelled out.
pub proof fn lemma_number_type_names()
    ensures
        "i8"@ == seq!['i', '8'],
        "i16"@ == seq!['i', '1', '6'],
        "i32"@ == seq!['i', '3', '2'],
        "i64"@ == seq!['i', '6', '4'],
        "u8"@ == seq!['u', '8'],
        "u16"@ == seq!['u', '1', '6'],
        "u32"@ == seq!['u', '3', '2'],
        "u64"@ == seq!['u', '6', '4'],
        "usize"@ == seq!['u', 's', 'i', 'z', 'e'],
        "f32"@ == seq!['f', '3', '2'],
        "f64"@ == seq!['f', '6', '4'],
        "bool"@ == seq!['b', 'o', 'o', 'l'],
        "String"@ == seq!['S', 't', 'r', 'i', 'n', 'g'],
        "&str"@ == seq!['&', 's', 't', 'r'],
        "Vec<u8>"@ == seq!['V', 'e', 'c', '<', 'u', '8', '>'],
{
    reveal_strlit("i8");
    reveal_strlit("i16");
    reveal_strlit("i32");
    reveal_strlit("i64");
    reveal_strlit("u8");
    reveal_strlit("u16");
    reveal_strlit("u32");
    reveal_strlit("u64");
    reveal_strlit("usize");
    reveal_strlit("f32");
    reveal_strlit("f64");
    reveal_strlit("bool");
    reveal_strlit("String");
    reveal_strlit("&str");
    reveal_strlit("Vec<u8>");
    assert("i8"@ =~= seq!['i', '8']);
    assert("i16"@ =~= seq!['i', '1', '6']);
    assert("i32"@ =~= seq!['i', '3', '2']);
    assert("i64"@ =~= seq!['i', '6', '4']);
    assert("u8"@ =~= seq!['u', '8']);
    assert("u16"@ =~= seq!['u', '1', '6']);
    assert("u32"@ =~= seq!['u', '3', '2']);
    assert("u64"@ =~= seq!['u', '6', '4']);
    assert("usize"@ =~= seq!['u', 's', 'i', 'z', 'e']);
    assert("f32"@ =~= seq!['f', '3', '2']);
    assert("f64"@ =~= seq!['f', '6', '4']);
    assert("bool"@ =~= seq!['b', 'o', 'o', 'l']);
    assert("String"@ =~= seq!['S', 't', 'r', 'i', 'n', 'g']);
    assert("&str"@ =~= seq!['&', 's', 't', 'r']);
    assert("Vec<u8>"@ =~= seq!['V', 'e', 'c', '<', 'u', '8', '>']);
}

/// What the comparison operator `op` (`<`, `<=`, `>`, `>=`, the same in
/// Rust, C# and JavaScript) says of the numbers `x` and `v`; any other text
/// compares nothing.
pub open spec fn comparison_holds(op: Seq<char>, x: int, v: int) -> bool {
    if op == seq!['<'] {
        x < v
    } else if op == seq!['<', '='] {
        x <= v
    } else if op == seq!['>'] {
        x > v
    } else if op == seq!['>', '='] {
        x >= v
    } else {
        false
    }
}

/// Whether a bound rule admits the value `x` against its bound `v`: `Gt`
/// admits values greater than the bound, `Gte` values at least the bound,
/// `Lt` values less than it, `Lte` values at most it.
pub open spec fn bound_admits(r: ValidateRule, x: int, v: int) -> bool {
    match r {
        ValidateRule::Gt { .. } => x > v,
        ValidateRule::Gte { .. } => x >= v,
        ValidateRule::Lt { .. } => x < v,
        ValidateRule::Lte { .. } => x <= v,
        _ => true,
    }
}

/// The bound of a bound rule, as written.
pub open spec fn bound_value(r: ValidateRule) -> Seq<char> {
    match r {
        ValidateRule::Gt { value, .. } => value@,
        ValidateRule::Gte { value, .. } => value@,
        ValidateRule::Lt { value, .. } => value@,
        ValidateRule::Lte { value, .. } => value@,
        _ => Seq::empty(),
    }
}

/// The error code of a rule.
pub open spec fn rule_code(r: ValidateRule) -> i64 {
    match r {
        ValidateRule::Gt { code, .. } => code,
        ValidateRule::Gte { code, .. } => code,
        ValidateRule::Lt { code, .. } => code,
        ValidateRule::Lte { code, .. } => code,
        ValidateRule::Len { code, .. } => code,
        ValidateRule::Of { code, .. } => code,
    }
}

/// The error message of a rule.
pub open spec fn rule_message(r: ValidateRule) -> Seq<char> {
    match r {
        ValidateRule::Gt { message, .. } => message@,
        ValidateRule::Gte { message, .. } => message@,
        ValidateRule::Lt { message, .. } => message@,
        ValidateRule::Lte { message, .. } => message@,
        ValidateRule::Len { message, .. } => message@,
        ValidateRule::Of { message, .. } => message@,
    }
}

pub proof fn lemma_operator_texts()
    ensures
        "<"@ == seq!['<'],
        "<="@ == seq!['<', '='],
        ">"@ == seq!['>'],
        ">="@ == seq!['>', '='],
{
    reveal_strlit("<");
    reveal_strlit("<=");
    reveal_strlit(">");
    reveal_strlit(">=");
    assert("<"@ =~= seq!['<']);
    assert("<="@ =~= seq!['<', '=']);
    assert(">"@ =~= seq!['>']);
    assert(">="@ =~= seq!['>', '=']);
}

/// Whether a length rule admits a value of length `n`: the length must lie
/// within `min..=max`, a negative bound standing for no bound.
pub open spec fn length_admits(r: ValidateRule, n: int) -> bool {
    match r {
        ValidateRule::Len { min, max, .. } => (min < 0 || n >= min) && (max < 0 || n <= max),
        _ => true,
    }
}

/// A rule that bounds a number.
pub open spec fn is_bound(r: ValidateRule) -> bool {
    r is Gt || r is Gte || r is Lt || r is Lte
}

} // verus!
