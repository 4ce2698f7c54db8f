//! Rust client-side checks of `#[validate]` rules.

use vstd::prelude::*;
use crate::wire::{
    bound_admits, bound_value, comparison_holds, is_bound, length_admits, lemma_operator_texts, rule_code,
    rule_message,
};
use crate::buf::CodeBuf;
use crate::cs::validate::quoted;
use crate::meta_spec::{field_size, fields_size, lemma_field_size_le, tag_size};
use crate::model::{FieldMeta, TagKind, TagMeta, ValidateRule};
use crate::naming::{snake, to_snake_case};
use crate::text::{cat2, cat3, cat4, cat5, cat6, dec_i64, dec_int, join, join_seq, starts_with, views};
use crate::typemap::is_option;

verus! {

/// The `return Err(..)` statement of a failed check.
pub open spec fn err_tail(code: i64, field_name: Seq<char>, message: Seq<char>) -> Seq<char> {
    " { return Err(AfastError::Validation { code: "@ + dec_int(code as int) + ", field: \""@ + field_name
        + "\".into(), message: \""@ + message + "\".into() }); }"@
}

/// A comparison check `!(*path op valuef64)`.
pub open spec fn compare_line(
    indent: Seq<char>,
    path: Seq<char>,
    op: Seq<char>,
    value: Seq<char>,
    code: i64,
    field_name: Seq<char>,
    message: Seq<char>,
) -> Seq<char> {
    indent + "if !(*"@ + path + " "@ + op + " "@ + value + "f64)"@ + err_tail(code, field_name, message)
}

/// The check lines for one rule on the value at `path`.
pub open spec fn rule_lines(path: Seq<char>, field_name: Seq<char>, rule: ValidateRule, indent: Seq<char>) -> Seq<
    Seq<char>,
> {
    match rule {
        ValidateRule::Gt { value, code, message } => seq![
            compare_line(indent, path, ">"@, value@, code, field_name, message@),
        ],
        ValidateRule::Gte { value, code, message } => seq![
            compare_line(indent, path, ">="@, value@, code, field_name, message@),
        ],
        ValidateRule::Lt { value, code, message } => seq![
            compare_line(indent, path, "<"@, value@, code, field_name, message@),
        ],
        ValidateRule::Lte { value, code, message } => seq![
            compare_line(indent, path, "<="@, value@, code, field_name, message@),
        ],
        ValidateRule::Len { min, max, code, message } => if min >= 0 && max >= 0 {
            seq![
                indent + "if "@ + path + ".len() < "@ + dec_int(min as int) + " || "@ + path + ".len() > "@
                    + dec_int(max as int) + err_tail(code, field_name, message@),
            ]
        } else if min >= 0 {
            seq![indent + "if "@ + path + ".len() < "@ + dec_int(min as int) + err_tail(code, field_name, message@)]
        } else if max >= 0 {
            seq![indent + "if "@ + path + ".len() > "@ + dec_int(max as int) + err_tail(code, field_name, message@)]
        } else {
            Seq::empty()
        },
        ValidateRule::Of { values, code, message } => seq![
            indent + "if !["@ + join_seq(quoted(views(values@)), ", "@) + "].contains(&"@ + path + ".as_str())"@
                + err_tail(code, field_name, message@),
        ],
    }
}

/// The check lines for all rules, in order.
pub open spec fn check_lines(path: Seq<char>, field_name: Seq<char>, rules: Seq<ValidateRule>, indent: Seq<char>) -> Seq<
    Seq<char>,
>
    decreases rules.len(),
{
    if rules.len() == 0 {
        Seq::empty()
    } else {
        check_lines(path, field_name, rules.drop_last(), indent) + rule_lines(
            path,
            field_name,
            rules.last(),
            indent,
        )
    }
}

fn err_text(code: i64, field_name: &str, message: &str) -> (r: String)
    ensures
        r@ == err_tail(code, field_name@, message@),
{
    let c = dec_i64(code);
    let a = cat4(" { return Err(AfastError::Validation { code: ", c.as_str(), ", field: \"", field_name);
    let r = cat4(a.as_str(), "\".into(), message: \"", message, "\".into() }); }");
    assert(r@ =~= " { return Err(AfastError::Validation { code: "@ + c@ + ", field: \""@ + field_name@
        + "\".into(), message: \""@ + message@ + "\".into() }); }"@);
    r
}

fn compare_text(
    indent: &str,
    path: &str,
    op: &str,
    value: &str,
    code: i64,
    field_name: &str,
    message: &str,
) -> (r: String)
    ensures
        r@ == compare_line(indent@, path@, op@, value@, code, field_name@, message@),
{
    let t = err_text(code, field_name, message);
    let a = cat6(indent, "if !(*", path, " ", op, " ");
    let r = cat4(a.as_str(), value, "f64)", t.as_str());
    assert(r@ =~= indent@ + "if !(*"@ + path@ + " "@ + op@ + " "@ + value@ + "f64)"@ + t@);
    r
}

fn quoted_values(values: &Vec<String>) -> (r: Vec<String>)
    ensures
        views(r@) == quoted(views(values@)),
{
    let mut r: Vec<String> = Vec::new();
    let mut i: usize = 0;
    while i < values.len()
        invariant
            i <= values@.len(),
            views(r@) == quoted(views(values@.subrange(0, i as int))),
        decreases values@.len() - i,
    {
        let ghost before = r@;
        r.push(cat3("\"", values[i].as_str(), "\""));
        proof {
            assert(views(values@.subrange(0, i + 1)) =~= views(values@.subrange(0, i as int)).push(
                values@[i as int]@,
            ));
            assert(views(r@) =~= views(before).push("\""@ + values@[i as int]@ + "\""@));
            assert(views(r@) =~= quoted(views(values@.subrange(0, i + 1))));
        }
        i = i + 1;
    }
    assert(values@.subrange(0, values@.len() as int) =~= values@);
    r
}

/// Emits the checks of `validations` on the value at `field_path`; each
/// failed check returns a validation error naming `field_name`.
pub fn emit_validation_checks_rs(
    cb: &mut CodeBuf,
    field_path: &str,
    field_name: &str,
    validations: &Vec<ValidateRule>,
    indent: &str,
)
    ensures
        final(cb)@ == old(cb)@ + check_lines(field_path@, field_name@, validations@, indent@),
{
    let mut i: usize = 0;
    while i < validations.len()
        invariant
            i <= validations@.len(),
            cb@ == old(cb)@ + check_lines(
                field_path@,
                field_name@,
                validations@.subrange(0, i as int),
                indent@,
            ),
        decreases validations@.len() - i,
    {
        let rule = &validations[i];
        let ghost before = cb@;
        match rule {
            ValidateRule::Gt { value, code, message } => {
                cb.push(compare_text(indent, field_path, ">", value.as_str(), *code, field_name, message.as_str()));
            },
            ValidateRule::Gte { value, code, message } => {
                cb.push(compare_text(indent, field_path, ">=", value.as_str(), *code, field_name, message.as_str()));
            },
            ValidateRule::Lt { value, code, message } => {
                cb.push(compare_text(indent, field_path, "<", value.as_str(), *code, field_name, message.as_str()));
            },
            ValidateRule::Lte { value, code, message } => {
                cb.push(compare_text(indent, field_path, "<=", value.as_str(), *code, field_name, message.as_str()));
            },
            ValidateRule::Len { min, max, code, message } => {
                let t = err_text(*code, field_name, message.as_str());
                if *min >= 0 && *max >= 0 {
                    let lo = dec_i64(*min);
                    let hi = dec_i64(*max);
                    let a = cat6(indent, "if ", field_path, ".len() < ", lo.as_str(), " || ");
                    let b = cat3(field_path, ".len() > ", hi.as_str());
                    let line = cat3(a.as_str(), b.as_str(), t.as_str());
                    assert(line@ =~= indent@ + "if "@ + field_path@ + ".len() < "@ + dec_int(*min as int)
                        + " || "@ + field_path@ + ".len() > "@ + dec_int(*max as int) + err_tail(
                        *code,
                        field_name@,
                        message@,
                    ));
                    cb.push(line);
                } else if *min >= 0 {
                    let lo = dec_i64(*min);
                    let line = cat5(indent, "if ", field_path, ".len() < ", lo.as_str());
                    let line = cat2(line.as_str(), t.as_str());
                    assert(line@ =~= indent@ + "if "@ + field_path@ + ".len() < "@ + dec_int(*min as int)
                        + err_tail(*code, field_name@, message@));
                    cb.push(line);
                } else if *max >= 0 {
                    let hi = dec_i64(*max);
                    let line = cat5(indent, "if ", field_path, ".len() > ", hi.as_str());
                    let line = cat2(line.as_str(), t.as_str());
                    assert(line@ =~= indent@ + "if "@ + field_path@ + ".len() > "@ + dec_int(*max as int)
                        + err_tail(*code, field_name@, message@));
                    cb.push(line);
                }
            },
            ValidateRule::Of { values, code, message } => {
                let q = quoted_values(values);
                let list = join(&q, ", ");
                let t = err_text(*code, field_name, message.as_str());
                let a = cat5(indent, "if ![", list.as_str(), "].contains(&", field_path);
                let line = cat3(a.as_str(), ".as_str())", t.as_str());
                assert(line@ =~= indent@ + "if !["@ + join_seq(quoted(views(values@)), ", "@) + "].contains(&"@
                    + field_path@ + ".as_str())"@ + err_tail(*code, field_name@, message@));
                cb.push(line);
            },
        }
        proof {
            assert(validations@.subrange(0, i + 1).drop_last() =~= validations@.subrange(0, i as int));
            assert(validations@.subrange(0, i + 1).last() == *rule);
            assert(cb@ =~= before + rule_lines(field_path@, field_name@, *rule, indent@));
        }
        i = i + 1;
    }
    assert(validations@.subrange(0, validations@.len() as int) =~= validations@);
}

/// The checks of a nested struct's fields; an enum is not looked into.
pub open spec fn nested_checks(path: Seq<char>, m: TagMeta, indent: Seq<char>) -> Seq<Seq<char>>
    decreases tag_size(m), 3nat, 0nat,
{
    match m.kind {
        TagKind::Struct(nf) => val_fields(path, nf@, indent),
        TagKind::Enum(_) => Seq::empty(),
    }
}

/// The checks for one included field of the value at `prefix`: an
/// optional field with rules is checked inside `if let Some(ref _v)`.
pub open spec fn val_field(prefix: Seq<char>, f: FieldMeta, indent: Seq<char>) -> Seq<Seq<char>>
    decreases field_size(f), 4nat, 0nat,
{
    let path = prefix + "."@ + snake(f.name@);
    if is_option(f.ty@) && f.validations@.len() > 0 {
        let inner = indent + "    "@;
        seq![indent + "if let Some(ref _v) = "@ + path + " {"@] + check_lines("_v"@, f.name@, f.validations@, inner)
            + match f.structure {
            Some(s) => nested_checks("_v"@, *s, inner),
            None => Seq::empty(),
        } + seq![indent + "}"@]
    } else {
        check_lines(path, f.name@, f.validations@, indent) + match f.structure {
            Some(s) => nested_checks(path, *s, indent),
            None => Seq::empty(),
        }
    }
}

/// The checks for the included fields of the value at `prefix`.
pub open spec fn val_fields(prefix: Seq<char>, fields: Seq<FieldMeta>, indent: Seq<char>) -> Seq<
    Seq<char>,
>
    decreases fields_size(fields), 5nat, fields.len(),
{
    if fields.len() == 0 {
        Seq::empty()
    } else {
        let rest = val_fields(prefix, fields.drop_last(), indent);
        if fields.last().skip {
            rest
        } else {
            rest + val_field(prefix, fields.last(), indent)
        }
    }
}

fn nested_validation_rs(cb: &mut CodeBuf, path: &str, m: &TagMeta, indent: &str)
    ensures
        final(cb)@ == old(cb)@ + nested_checks(path@, *m, indent@),
    decreases tag_size(*m), 3nat, 0nat,
{
    match &m.kind {
        TagKind::Struct(nf) => {
            assert(fields_size(nf@) < tag_size(*m));
            generate_validation_rs(cb, path, nf, indent);
        },
        TagKind::Enum(_) => {
            assert(cb@ =~= old(cb)@ + nested_checks(path@, *m, indent@));
        },
    }
}

fn validate_field_rs(cb: &mut CodeBuf, prefix: &str, f: &FieldMeta, indent: &str)
    ensures
        final(cb)@ == old(cb)@ + val_field(prefix@, *f, indent@),
    decreases field_size(*f), 4nat, 0nat,
{
    proof {
        reveal_strlit("Option<");
    }
    let opt = starts_with(f.ty.as_str(), "Option<");
    let name = to_snake_case(f.name.as_str());
    let path = cat3(prefix, ".", name.as_str());
    let ghost start = cb@;
    if opt && f.validations.len() > 0 {
        let inner = cat2(indent, "    ");
        cb.push(cat4(indent, "if let Some(ref _v) = ", path.as_str(), " {"));
        emit_validation_checks_rs(cb, "_v", f.name.as_str(), &f.validations, inner.as_str());
        match &f.structure {
            Some(s) => {
                assert(tag_size(**s) == field_size(*f));
                nested_validation_rs(cb, "_v", s, inner.as_str());
            },
            None => {},
        }
        cb.push(cat2(indent, "}"));
        proof {
            assert(cb@ =~= start + val_field(prefix@, *f, indent@));
        }
    } else {
        emit_validation_checks_rs(cb, path.as_str(), f.name.as_str(), &f.validations, indent);
        match &f.structure {
            Some(s) => {
                assert(tag_size(**s) == field_size(*f));
                nested_validation_rs(cb, path.as_str(), s, indent);
            },
            None => {},
        }
        proof {
            assert(cb@ =~= start + val_field(prefix@, *f, indent@));
        }
    }
}

/// Emits the checks of the included fields of the value at `var_prefix`,
/// recursing into nested structs.
pub fn generate_validation_rs(cb: &mut CodeBuf, var_prefix: &str, fields: &Vec<FieldMeta>, indent: &str)
    ensures
        final(cb)@ == old(cb)@ + val_fields(var_prefix@, fields@, indent@),
    decreases fields_size(fields@), 5nat, fields@.len(),
{
    let mut i: usize = 0;
    while i < fields.len()
        invariant
            i <= fields@.len(),
            cb@ == old(cb)@ + val_fields(var_prefix@, fields@.subrange(0, i as int), indent@),
        decreases fields@.len() - i,
    {
        let f = &fields[i];
        proof {
            lemma_field_size_le(fields@, i as int);
            assert(fields@.subrange(0, i + 1).drop_last() =~= fields@.subrange(0, i as int));
            assert(fields@.subrange(0, i + 1).last() == *f);
        }
        let ghost before = cb@;
        if !f.skip {
            validate_field_rs(cb, var_prefix, f, indent);
            assert(cb@ =~= before + val_field(var_prefix@, *f, indent@));
        }
        i = i + 1;
    }
    assert(fields@.subrange(0, fields@.len() as int) =~= fields@);
}

/// A bound rule becomes one check that refuses exactly the values the rule
/// does not admit: the line is `if !(*path OP bound f64) { return Err(..) }`
/// where Rust's `OP` holds of a value and the bound exactly when the rule
/// admits the value (`<=` for `Lte`, so a value equal to the bound passes).
pub proof fn law_rs_bound_checks_refuse_exactly_what_the_rule_refuses(
    path: Seq<char>,
    field_name: Seq<char>,
    rule: ValidateRule,
    indent: Seq<char>,
)
    requires
        is_bound(rule),
    ensures
        exists|op: Seq<char>|
            rule_lines(path, field_name, rule, indent) == seq![
                indent + "if !(*"@ + path + " "@ + op + " "@ + bound_value(rule) + "f64)"@ + err_tail(
                    rule_code(rule),
                    field_name,
                    rule_message(rule),
                ),
            ] && forall|x: int, v: int| #[trigger] comparison_holds(op, x, v) <==> bound_admits(rule, x, v),
{
    lemma_operator_texts();
    let op: Seq<char> = match rule {
        ValidateRule::Gt { .. } => ">"@,
        ValidateRule::Gte { .. } => ">="@,
        ValidateRule::Lt { .. } => "<"@,
        _ => "<="@,
    };
    assert forall|x: int, v: int| #[trigger] comparison_holds(op, x, v) <==> bound_admits(rule, x, v) by {
        assert(seq!['<'].len() == 1 && seq!['<', '='].len() == 2 && seq!['>'].len() == 1);
        assert(seq!['<'][0] != seq!['>'][0]);
        assert(seq!['<', '='][0] != seq!['>', '='][0]);
    }
    assert(rule_lines(path, field_name, rule, indent) =~= seq![
        indent + "if !(*"@ + path + " "@ + op + " "@ + bound_value(rule) + "f64)"@ + err_tail(
            rule_code(rule),
            field_name,
            rule_message(rule),
        ),
    ]);
}

/// A length rule becomes checks that refuse exactly the lengths the rule
/// does not admit: with both bounds, one test `if .. || ..` joining a
/// comparison of the length with each bound; with one bound, a test of
/// that bound alone; with none, no check. Each comparison holds of a length
/// and its bound exactly when that bound refuses the length (`<` against
/// the least length, `>` against the greatest), so lengths equal to a bound
/// pass.
pub proof fn law_rs_length_checks_refuse_exactly_what_the_rule_refuses(path: Seq<char>, field_name: Seq<char>, rule: ValidateRule, indent: Seq<char>)
    requires
        rule is Len,
    ensures
        ({
            let min = rule->Len_min as int;
            let max = rule->Len_max as int;
            &&& (min >= 0 && max >= 0 ==> exists|op1: Seq<char>, op2: Seq<char>|
                rule_lines(path, field_name, rule, indent) == seq![indent + "if "@ + path + ".len() "@ + op1 + " "@ + dec_int(min) + " || "@ + path + ".len() "@ + op2 + " "@ + dec_int(max) + err_tail(rule->Len_code, field_name, rule->Len_message@)] && forall|n: int|
                    (#[trigger] comparison_holds(op1, n, min) || comparison_holds(op2, n, max)) <==> !length_admits(rule, n))
            &&& (min >= 0 && max < 0 ==> exists|op: Seq<char>|
                rule_lines(path, field_name, rule, indent) == seq![indent + "if "@ + path + ".len() "@ + op + " "@ + dec_int(min) + err_tail(rule->Len_code, field_name, rule->Len_message@)] && forall|n: int|
                    #[trigger] comparison_holds(op, n, min) <==> !length_admits(rule, n))
            &&& (min < 0 && max >= 0 ==> exists|op: Seq<char>|
                rule_lines(path, field_name, rule, indent) == seq![indent + "if "@ + path + ".len() "@ + op + " "@ + dec_int(max) + err_tail(rule->Len_code, field_name, rule->Len_message@)] && forall|n: int|
                    #[trigger] comparison_holds(op, n, max) <==> !length_admits(rule, n))
            &&& (min < 0 && max < 0 ==> rule_lines(path, field_name, rule, indent) == Seq::<Seq<char>>::empty()
                && forall|n: int| #[trigger] length_admits(rule, n))
        }),
{
    lemma_operator_texts();
    reveal_strlit("if ");
    reveal_strlit(".len() < ");
    reveal_strlit(".len() > ");
    reveal_strlit(" || ");
    reveal_strlit(".len() ");
    reveal_strlit(" ");
    let min = rule->Len_min as int;
    let max = rule->Len_max as int;
    let op1: Seq<char> = "<"@;
    let op2: Seq<char> = ">"@;
    let op = op1;
    if min >= 0 && max >= 0 {
        assert(rule_lines(path, field_name, rule, indent)[0] =~= indent + "if "@ + path + ".len() "@ + op1 + " "@ + dec_int(min) + " || "@ + path + ".len() "@ + op2 + " "@ + dec_int(max) + err_tail(rule->Len_code, field_name, rule->Len_message@));
        assert(rule_lines(path, field_name, rule, indent) =~= seq![indent + "if "@ + path + ".len() "@ + op1 + " "@ + dec_int(min) + " || "@ + path + ".len() "@ + op2 + " "@ + dec_int(max) + err_tail(rule->Len_code, field_name, rule->Len_message@)]);
    }
    if min >= 0 && max < 0 {
        assert(rule_lines(path, field_name, rule, indent)[0] =~= indent + "if "@ + path + ".len() "@ + op + " "@ + dec_int(min) + err_tail(rule->Len_code, field_name, rule->Len_message@));
        assert(rule_lines(path, field_name, rule, indent) =~= seq![indent + "if "@ + path + ".len() "@ + op + " "@ + dec_int(min) + err_tail(rule->Len_code, field_name, rule->Len_message@)]);
    }
    let op = op2;
    if min < 0 && max >= 0 {
        assert(rule_lines(path, field_name, rule, indent)[0] =~= indent + "if "@ + path + ".len() "@ + op + " "@ + dec_int(max) + err_tail(rule->Len_code, field_name, rule->Len_message@));
        assert(rule_lines(path, field_name, rule, indent) =~= seq![indent + "if "@ + path + ".len() "@ + op + " "@ + dec_int(max) + err_tail(rule->Len_code, field_name, rule->Len_message@)]);
    }
    assert(seq!['<'].len() == 1 && seq!['<', '='].len() == 2 && seq!['>'].len() == 1);
    assert(seq!['<'][0] != seq!['>'][0]);
    assert(forall|n: int| #[trigger] comparison_holds(op1, n, min) <==> n < min);
    assert(forall|n: int| #[trigger] comparison_holds(op2, n, max) <==> n > max);
}

} // verus!
