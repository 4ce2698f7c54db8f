//! C# client-side checks of `#[validate]` rules.

use vstd::prelude::*;
use crate::wire::{
    bound_admits, bound_value, comparison_holds, is_bound, length_admits, lemma_operator_texts, rule_code,
    rule_message,
};
use crate::buf::CodeBuf;
use crate::cs::typedefs::{is_tuple_variant, tuple_variant};
use crate::meta_spec::{
    field_size, fields_size, lemma_field_size_le, lemma_variant_size_le, tag_size, variants_size,
};
use crate::model::{EnumVariantMeta, FieldMeta, TagKind, TagMeta, ValidateRule};
use crate::naming::{pascal, to_pascal_case};
use crate::text::{cat2, cat3, cat4, cat5, cat6, dec_i64, dec_int, join, join_seq, starts_with, views};
use crate::typemap::{is_option, normalize, normalize_rust_type};

verus! {

/// The end of a failed check: throws the rule's code, field and message.
pub open spec fn throw_tail(code: i64, field_name: Seq<char>, message: Seq<char>) -> Seq<char> {
    " throw new AFastValidationError("@ + dec_int(code as int) + "L, \""@ + field_name + "\", \""@
        + message + "\");"@
}

/// A comparison check `!(path op valueL)`.
pub open spec fn compare_line(
    indent: Seq<char>,
    path: Seq<char>,
    op: Seq<char>,
    value: Seq<char>,
    code: i64,
    field_name: Seq<char>,
    message: Seq<char>,
) -> Seq<char> {
    indent + "if (!("@ + path + " "@ + op + " "@ + value + "L))"@ + throw_tail(code, field_name, message)
}

/// The quoted values of an `of` rule.
pub open spec fn quoted(values: Seq<Seq<char>>) -> Seq<Seq<char>> {
    values.map_values(|v: Seq<char>| "\""@ + v + "\""@)
}

/// The check lines for one rule on the value at `path`.
pub open spec fn rule_lines(path: Seq<char>, field_name: Seq<char>, rule: ValidateRule, indent: Seq<char>) -> Seq<
    Seq<char>,
> {
    match rule {
        ValidateRule::Gt { value, code, message } => seq![
            compare_line(indent, path, ">"@, value@, code, field_name, message@),
        ],
        ValidateRule::Gte { value, code, message } => seq![
            compare_line(indent, path, ">="@, value@, code, field_name, message@),
        ],
        ValidateRule::Lt { value, code, message } => seq![
            compare_line(indent, path, "<"@, value@, code, field_name, message@),
        ],
        ValidateRule::Lte { value, code, message } => seq![
            compare_line(indent, path, "<="@, value@, code, field_name, message@),
        ],
        ValidateRule::Len { min, max, code, message } => if min >= 0 && max >= 0 {
            seq![
                indent + "if ("@ + path + ".Length < "@ + dec_int(min as int) + " || "@ + path
                    + ".Length > "@ + dec_int(max as int) + ")"@ + throw_tail(code, field_name, message@),
            ]
        } else if min >= 0 {
            seq![
                indent + "if ("@ + path + ".Length < "@ + dec_int(min as int) + ")"@ + throw_tail(
                    code,
                    field_name,
                    message@,
                ),
            ]
        } else if max >= 0 {
            seq![
                indent + "if ("@ + path + ".Length > "@ + dec_int(max as int) + ")"@ + throw_tail(
                    code,
                    field_name,
                    message@,
                ),
            ]
        } else {
            Seq::empty()
        },
        ValidateRule::Of { values, code, message } => seq![
            indent + "if (!new[] { "@ + join_seq(quoted(views(values@)), ", "@) + " }.Contains("@ + path
                + "))"@ + throw_tail(code, field_name, message@),
        ],
    }
}

/// The check lines for all rules, in order.
pub open spec fn check_lines(path: Seq<char>, field_name: Seq<char>, rules: Seq<ValidateRule>, indent: Seq<char>) -> Seq<
    Seq<char>,
>
    decreases rules.len(),
{
    if rules.len() == 0 {
        Seq::empty()
    } else {
        check_lines(path, field_name, rules.drop_last(), indent) + rule_lines(
            path,
            field_name,
            rules.last(),
            indent,
        )
    }
}

fn throw_text(code: i64, field_name: &str, message: &str) -> (r: String)
    ensures
        r@ == throw_tail(code, field_name@, message@),
{
    let c = dec_i64(code);
    let a = cat4(" throw new AFastValidationError(", c.as_str(), "L, \"", field_name);
    let r = cat4(a.as_str(), "\", \"", message, "\");");
    assert(r@ =~= " throw new AFastValidationError("@ + c@ + "L, \""@ + field_name@ + "\", \""@
        + message@ + "\");"@);
    r
}

fn compare_text(
    indent: &str,
    path: &str,
    op: &str,
    value: &str,
    code: i64,
    field_name: &str,
    message: &str,
) -> (r: String)
    ensures
        r@ == compare_line(indent@, path@, op@, value@, code, field_name@, message@),
{
    let t = throw_text(code, field_name, message);
    let a = cat6(indent, "if (!(", path, " ", op, " ");
    let r = cat4(a.as_str(), value, "L))", t.as_str());
    assert(r@ =~= indent@ + "if (!("@ + path@ + " "@ + op@ + " "@ + value@ + "L))"@ + t@);
    r
}

fn quoted_values(values: &Vec<String>) -> (r: Vec<String>)
    ensures
        views(r@) == quoted(views(values@)),
{
    let mut r: Vec<String> = Vec::new();
    let mut i: usize = 0;
    while i < values.len()
        invariant
            i <= values@.len(),
            views(r@) == quoted(views(values@.subrange(0, i as int))),
        decreases values@.len() - i,
    {
        let ghost before = r@;
        r.push(cat3("\"", values[i].as_str(), "\""));
        proof {
            assert(views(values@.subrange(0, i + 1)) =~= views(values@.subrange(0, i as int)).push(
                values@[i as int]@,
            ));
            assert(views(r@) =~= views(before).push("\""@ + values@[i as int]@ + "\""@));
            assert(views(r@) =~= quoted(views(values@.subrange(0, i + 1))));
        }
        i = i + 1;
    }
    assert(values@.subrange(0, values@.len() as int) =~= values@);
    r
}

/// Emits the checks of `validations` on the value at `field_path`.
pub fn emit_validation_checks_cs(
    cb: &mut CodeBuf,
    field_path: &str,
    field_name: &str,
    validations: &Vec<ValidateRule>,
    indent: &str,
)
    ensures
        final(cb)@ == old(cb)@ + check_lines(field_path@, field_name@, validations@, indent@),
{
    let mut i: usize = 0;
    while i < validations.len()
        invariant
            i <= validations@.len(),
            cb@ == old(cb)@ + check_lines(
                field_path@,
                field_name@,
                validations@.subrange(0, i as int),
                indent@,
            ),
        decreases validations@.len() - i,
    {
        let rule = &validations[i];
        let ghost before = cb@;
        match rule {
            ValidateRule::Gt { value, code, message } => {
                cb.push(compare_text(indent, field_path, ">", value.as_str(), *code, field_name, message.as_str()));
            },
            ValidateRule::Gte { value, code, message } => {
                cb.push(compare_text(indent, field_path, ">=", value.as_str(), *code, field_name, message.as_str()));
            },
            ValidateRule::Lt { value, code, message } => {
                cb.push(compare_text(indent, field_path, "<", value.as_str(), *code, field_name, message.as_str()));
            },
            ValidateRule::Lte { value, code, message } => {
                cb.push(compare_text(indent, field_path, "<=", value.as_str(), *code, field_name, message.as_str()));
            },
            ValidateRule::Len { min, max, code, message } => {
                let t = throw_text(*code, field_name, message.as_str());
                if *min >= 0 && *max >= 0 {
                    let lo = dec_i64(*min);
                    let hi = dec_i64(*max);
                    let a = cat6(indent, "if (", field_path, ".Length < ", lo.as_str(), " || ");
                    let b = cat4(field_path, ".Length > ", hi.as_str(), ")");
                    let line = cat3(a.as_str(), b.as_str(), t.as_str());
                    assert(line@ =~= indent@ + "if ("@ + field_path@ + ".Length < "@ + dec_int(
                        *min as int,
                    ) + " || "@ + field_path@ + ".Length > "@ + dec_int(*max as int) + ")"@
                        + throw_tail(*code, field_name@, message@));
                    cb.push(line);
                } else if *min >= 0 {
                    let lo = dec_i64(*min);
                    let a = cat5(indent, "if (", field_path, ".Length < ", lo.as_str());
                    let line = cat3(a.as_str(), ")", t.as_str());
                    assert(line@ =~= indent@ + "if ("@ + field_path@ + ".Length < "@ + dec_int(
                        *min as int,
                    ) + ")"@ + throw_tail(*code, field_name@, message@));
                    cb.push(line);
                } else if *max >= 0 {
                    let hi = dec_i64(*max);
                    let a = cat5(indent, "if (", field_path, ".Length > ", hi.as_str());
                    let line = cat3(a.as_str(), ")", t.as_str());
                    assert(line@ =~= indent@ + "if ("@ + field_path@ + ".Length > "@ + dec_int(
                        *max as int,
                    ) + ")"@ + throw_tail(*code, field_name@, message@));
                    cb.push(line);
                }
            },
            ValidateRule::Of { values, code, message } => {
                let q = quoted_values(values);
                let list = join(&q, ", ");
                let t = throw_text(*code, field_name, message.as_str());
                let a = cat5(indent, "if (!new[] { ", list.as_str(), " }.Contains(", field_path);
                let line = cat3(a.as_str(), "))", t.as_str());
                assert(line@ =~= indent@ + "if (!new[] { "@ + join_seq(quoted(views(values@)), ", "@)
                    + " }.Contains("@ + field_path@ + "))"@ + throw_tail(*code, field_name@, message@));
                cb.push(line);
            },
        }
        proof {
            assert(validations@.subrange(0, i + 1).drop_last() =~= validations@.subrange(0, i as int));
            assert(validations@.subrange(0, i + 1).last() == *rule);
            assert(cb@ =~= before + rule_lines(field_path@, field_name@, *rule, indent@));
        }
        i = i + 1;
    }
    assert(validations@.subrange(0, validations@.len() as int) =~= validations@);
}

/// The checks of the nested type of a field: a struct's fields, or an
/// enum's variants.
pub open spec fn nested_checks(path: Seq<char>, m: TagMeta, indent: Seq<char>) -> Seq<Seq<char>>
    decreases tag_size(m), 3nat, 0nat,
{
    match m.kind {
        TagKind::Struct(nf) => val_fields(path, nf@, indent),
        TagKind::Enum(vs) => val_variants(path, vs@, indent),
    }
}

/// The checks for one included field of the value at `prefix`.
pub open spec fn val_field(prefix: Seq<char>, f: FieldMeta, indent: Seq<char>) -> Seq<Seq<char>>
    decreases field_size(f), 4nat, 0nat,
{
    let opt = is_option(normalize(f.ty@));
    let path = prefix + "."@ + pascal(f.name@);
    let inner = indent + "    "@;
    if opt && f.validations@.len() > 0 {
        seq![indent + "if ("@ + path + " != default) {"@] + check_lines(
            path,
            f.name@,
            f.validations@,
            inner,
        ) + match f.structure {
            Some(s) => nested_checks(path, *s, inner),
            None => Seq::empty(),
        } + seq![indent + "}"@]
    } else {
        let checks = check_lines(path, f.name@, f.validations@, indent);
        match f.structure {
            Some(s) => if opt {
                checks + seq![indent + "if ("@ + path + " != default) {"@] + nested_checks(
                    path,
                    *s,
                    inner,
                ) + seq![indent + "}"@]
            } else {
                checks + nested_checks(path, *s, indent)
            },
            None => checks,
        }
    }
}

/// The checks for the included fields of the value at `prefix`.
pub open spec fn val_fields(prefix: Seq<char>, fields: Seq<FieldMeta>, indent: Seq<char>) -> Seq<
    Seq<char>,
>
    decreases fields_size(fields), 5nat, fields.len(),
{
    if fields.len() == 0 {
        Seq::empty()
    } else {
        let rest = val_fields(prefix, fields.drop_last(), indent);
        if fields.last().skip {
            rest
        } else {
            rest + val_field(prefix, fields.last(), indent)
        }
    }
}

/// Whether some field of a variant has rules or a nested type.
pub open spec fn has_work(fields: Seq<FieldMeta>) -> bool {
    exists|j: int| 0 <= j < fields.len() && (fields[j].validations@.len() > 0 || fields[j].structure is Some)
}

/// The checks of every variant of the enum value at `prefix`.
pub open spec fn val_variants(prefix: Seq<char>, variants: Seq<EnumVariantMeta>, indent: Seq<char>) -> Seq<
    Seq<char>,
>
    decreases variants_size(variants), 6nat, variants.len(),
{
    if variants.len() == 0 {
        Seq::empty()
    } else {
        let rest = val_variants(prefix, variants.drop_last(), indent);
        let v = variants.last();
        let open_line = indent + "if ("@ + prefix + " is "@ + v.name@ + " v__) {"@;
        if v.fields@.len() == 0 {
            rest
        } else if is_tuple_variant(v) {
            let f = v.fields@[0];
            if f.validations@.len() > 0 {
                rest + seq![open_line] + check_lines(
                    prefix + "."@ + pascal(f.name@),
                    f.name@,
                    f.validations@,
                    indent + "    "@,
                ) + seq![indent + "}"@]
            } else {
                rest
            }
        } else if has_work(v.fields@) {
            rest + seq![open_line] + val_fields(prefix, v.fields@, indent + "    "@) + seq![indent + "}"@]
        } else {
            rest
        }
    }
}


fn nested_validation_cs(cb: &mut CodeBuf, path: &str, m: &TagMeta, indent: &str)
    ensures
        final(cb)@ == old(cb)@ + nested_checks(path@, *m, indent@),
    decreases tag_size(*m), 3nat, 0nat,
{
    match &m.kind {
        TagKind::Struct(nf) => {
            assert(fields_size(nf@) < tag_size(*m));
            generate_validation_cs(cb, path, nf, indent);
        },
        TagKind::Enum(vs) => {
            assert(variants_size(vs@) < tag_size(*m));
            generate_enum_validation_cs(cb, path, m.name.as_str(), vs, indent);
        },
    }
}

fn validate_field_cs(cb: &mut CodeBuf, prefix: &str, f: &FieldMeta, indent: &str)
    ensures
        final(cb)@ == old(cb)@ + val_field(prefix@, *f, indent@),
    decreases field_size(*f), 4nat, 0nat,
{
    proof {
        reveal_strlit("Option<");
    }
    let ft = normalize_rust_type(f.ty.as_str());
    let opt = starts_with(ft.as_str(), "Option<");
    let name = to_pascal_case(f.name.as_str());
    let path = cat3(prefix, ".", name.as_str());
    let inner = cat2(indent, "    ");
    let ghost start = cb@;
    if opt && f.validations.len() > 0 {
        let open_line = cat4(indent, "if (", path.as_str(), " != default) {");
        cb.push(open_line);
        emit_validation_checks_cs(cb, path.as_str(), f.name.as_str(), &f.validations, inner.as_str());
        let ghost mid = cb@;
        match &f.structure {
            Some(s) => {
                assert(tag_size(**s) == field_size(*f));
                nested_validation_cs(cb, path.as_str(), s, inner.as_str());
            },
            None => {},
        }
        cb.push(cat2(indent, "}"));
        proof {
            assert(cb@ =~= start + val_field(prefix@, *f, indent@));
        }
    } else {
        emit_validation_checks_cs(cb, path.as_str(), f.name.as_str(), &f.validations, indent);
        let ghost checked = cb@;
        match &f.structure {
            Some(s) => {
                assert(tag_size(**s) == field_size(*f));
                if opt {
                    let open_line = cat4(indent, "if (", path.as_str(), " != default) {");
                    cb.push(open_line);
                    nested_validation_cs(cb, path.as_str(), s, inner.as_str());
                    cb.push(cat2(indent, "}"));
                    assert(cb@ =~= checked + seq![open_line@] + nested_checks(path@, **s, inner@)
                        + seq![indent@ + "}"@]);
                } else {
                    nested_validation_cs(cb, path.as_str(), s, indent);
                }
            },
            None => {},
        }
    }
}

/// Emits the checks of the included fields of the value at `var_prefix`.
pub fn generate_validation_cs(cb: &mut CodeBuf, var_prefix: &str, fields: &Vec<FieldMeta>, indent: &str)
    ensures
        final(cb)@ == old(cb)@ + val_fields(var_prefix@, fields@, indent@),
    decreases fields_size(fields@), 5nat, fields@.len(),
{
    let mut i: usize = 0;
    while i < fields.len()
        invariant
            i <= fields@.len(),
            cb@ == old(cb)@ + val_fields(var_prefix@, fields@.subrange(0, i as int), indent@),
        decreases fields@.len() - i,
    {
        let f = &fields[i];
        proof {
            lemma_field_size_le(fields@, i as int);
            assert(fields@.subrange(0, i + 1).drop_last() =~= fields@.subrange(0, i as int));
            assert(fields@.subrange(0, i + 1).last() == *f);
        }
        let ghost before = cb@;
        if !f.skip {
            validate_field_cs(cb, var_prefix, f, indent);
            assert(cb@ =~= before + val_field(var_prefix@, *f, indent@));
        }
        i = i + 1;
    }
    assert(fields@.subrange(0, fields@.len() as int) =~= fields@);
}

fn fields_have_work(fields: &Vec<FieldMeta>) -> (r: bool)
    ensures
        r == has_work(fields@),
{
    let mut i: usize = 0;
    while i < fields.len()
        invariant
            i <= fields@.len(),
            forall|j: int| 0 <= j < i ==> !(fields@[j].validations@.len() > 0 || fields@[j].structure is Some),
        decreases fields@.len() - i,
    {
        if fields[i].validations.len() > 0 || fields[i].structure.is_some() {
            return true;
        }
        i = i + 1;
    }
    false
}

/// Emits the checks of each variant of the enum value at `var_prefix`.
pub fn generate_enum_validation_cs(
    cb: &mut CodeBuf,
    var_prefix: &str,
    enum_name: &str,
    variants: &Vec<EnumVariantMeta>,
    indent: &str,
)
    ensures
        final(cb)@ == old(cb)@ + val_variants(var_prefix@, variants@, indent@),
    decreases variants_size(variants@), 6nat, variants@.len(),
{
    let mut i: usize = 0;
    while i < variants.len()
        invariant
            i <= variants@.len(),
            cb@ == old(cb)@ + val_variants(var_prefix@, variants@.subrange(0, i as int), indent@),
        decreases variants@.len() - i,
    {
        let v = &variants[i];
        proof {
            lemma_variant_size_le(variants@, i as int);
            assert(variants@.subrange(0, i + 1).drop_last() =~= variants@.subrange(0, i as int));
            assert(variants@.subrange(0, i + 1).last() == *v);
        }
        let ghost before = cb@;
        if v.fields.len() == 0 {
        } else if tuple_variant(v) {
            let f = &v.fields[0];
            if f.validations.len() > 0 {
                let open_line = cat5(indent, "if (", var_prefix, " is ", v.name.as_str());
                let open_line = cat2(open_line.as_str(), " v__) {");
                cb.push(open_line);
                let name = to_pascal_case(f.name.as_str());
                let path = cat3(var_prefix, ".", name.as_str());
                let inner = cat2(indent, "    ");
                emit_validation_checks_cs(cb, path.as_str(), f.name.as_str(), &f.validations, inner.as_str());
                cb.push(cat2(indent, "}"));
            }
        } else if fields_have_work(&v.fields) {
            let open_line = cat5(indent, "if (", var_prefix, " is ", v.name.as_str());
            let open_line = cat2(open_line.as_str(), " v__) {");
            cb.push(open_line);
            let inner = cat2(indent, "    ");
            generate_validation_cs(cb, var_prefix, &v.fields, inner.as_str());
            cb.push(cat2(indent, "}"));
        }
        proof {
            assert(cb@ =~= old(cb)@ + val_variants(var_prefix@, variants@.subrange(0, i + 1), indent@));
        }
        i = i + 1;
    }
    assert(variants@.subrange(0, variants@.len() as int) =~= variants@);
}

/// A bound rule becomes one check that throws for exactly the values the
/// rule does not admit: the line is `if (!(path OP boundL)) throw ..` where
/// the operator holds of a value and the bound exactly when the rule admits
/// the value (`<=` for `Lte`).
pub proof fn law_cs_bound_checks_refuse_exactly_what_the_rule_refuses(
    path: Seq<char>,
    field_name: Seq<char>,
    rule: ValidateRule,
    indent: Seq<char>,
)
    requires
        is_bound(rule),
    ensures
        exists|op: Seq<char>|
            rule_lines(path, field_name, rule, indent) == seq![indent + "if (!("@ + path + " "@ + op + " "@ + bound_value(rule) + "L))"@ + throw_tail(rule_code(rule), field_name, rule_message(rule))] && forall|x: int, v: int|
                #[trigger] comparison_holds(op, x, v) <==> bound_admits(rule, x, v),
{
    lemma_operator_texts();
    let op: Seq<char> = match rule {
        ValidateRule::Gt { .. } => ">"@,
        ValidateRule::Gte { .. } => ">="@,
        ValidateRule::Lt { .. } => "<"@,
        _ => "<="@,
    };
    assert forall|x: int, v: int| #[trigger] comparison_holds(op, x, v) <==> bound_admits(rule, x, v) by {
        assert(seq!['<'].len() == 1 && seq!['<', '='].len() == 2 && seq!['>'].len() == 1);
        assert(seq!['<'][0] != seq!['>'][0]);
        assert(seq!['<', '='][0] != seq!['>', '='][0]);
    }
    assert(rule_lines(path, field_name, rule, indent) =~= seq![indent + "if (!("@ + path + " "@ + op + " "@ + bound_value(rule) + "L))"@ + throw_tail(rule_code(rule), field_name, rule_message(rule))]);
}

/// A length rule becomes checks that refuse exactly the lengths the rule
/// does not admit: with both bounds, one test `if (.. || ..)` joining a
/// comparison of the length with each bound; with one bound, a test of
/// that bound alone; with none, no check. Each comparison holds of a length
/// and its bound exactly when that bound refuses the length (`<` against
/// the least length, `>` against the greatest), so lengths equal to a bound
/// pass.
pub proof fn law_cs_length_checks_refuse_exactly_what_the_rule_refuses(path: Seq<char>, field_name: Seq<char>, rule: ValidateRule, indent: Seq<char>)
    requires
        rule is Len,
    ensures
        ({
            let min = rule->Len_min as int;
            let max = rule->Len_max as int;
            &&& (min >= 0 && max >= 0 ==> exists|op1: Seq<char>, op2: Seq<char>|
                rule_lines(path, field_name, rule, indent) == seq![indent + "if ("@ + path + ".Length "@ + op1 + " "@ + dec_int(min) + " || "@ + path + ".Length "@ + op2 + " "@ + dec_int(max) + ")"@ + throw_tail(rule->Len_code, field_name, rule->Len_message@)] && forall|n: int|
                    (#[trigger] comparison_holds(op1, n, min) || comparison_holds(op2, n, max)) <==> !length_admits(rule, n))
            &&& (min >= 0 && max < 0 ==> exists|op: Seq<char>|
                rule_lines(path, field_name, rule, indent) == seq![indent + "if ("@ + path + ".Length "@ + op + " "@ + dec_int(min) + ")"@ + throw_tail(rule->Len_code, field_name, rule->Len_message@)] && forall|n: int|
                    #[trigger] comparison_holds(op, n, min) <==> !length_admits(rule, n))
            &&& (min < 0 && max >= 0 ==> exists|op: Seq<char>|
                rule_lines(path, field_name, rule, indent) == seq![indent + "if ("@ + path + ".Length "@ + op + " "@ + dec_int(max) + ")"@ + throw_tail(rule->Len_code, field_name, rule->Len_message@)] && forall|n: int|
                    #[trigger] comparison_holds(op, n, max) <==> !length_admits(rule, n))
            &&& (min < 0 && max < 0 ==> rule_lines(path, field_name, rule, indent) == Seq::<Seq<char>>::empty()
                && forall|n: int| #[trigger] length_admits(rule, n))
        }),
{
    lemma_operator_texts();
    reveal_strlit("if (");
    reveal_strlit(".Length < ");
    reveal_strlit(".Length > ");
    reveal_strlit(" || ");
    reveal_strlit(".Length ");
    reveal_strlit(" ");
    let min = rule->Len_min as int;
    let max = rule->Len_max as int;
    let op1: Seq<char> = "<"@;
    let op2: Seq<char> = ">"@;
    let op = op1;
    if min >= 0 && max >= 0 {
        assert(rule_lines(path, field_name, rule, indent)[0] =~= indent + "if ("@ + path + ".Length "@ + op1 + " "@ + dec_int(min) + " || "@ + path + ".Length "@ + op2 + " "@ + dec_int(max) + ")"@ + throw_tail(rule->Len_code, field_name, rule->Len_message@));
        assert(rule_lines(path, field_name, rule, indent) =~= seq![indent + "if ("@ + path + ".Length "@ + op1 + " "@ + dec_int(min) + " || "@ + path + ".Length "@ + op2 + " "@ + dec_int(max) + ")"@ + throw_tail(rule->Len_code, field_name, rule->Len_message@)]);
    }
    if min >= 0 && max < 0 {
        assert(rule_lines(path, field_name, rule, indent)[0] =~= indent + "if ("@ + path + ".Length "@ + op + " "@ + dec_int(min) + ")"@ + throw_tail(rule->Len_code, field_name, rule->Len_message@));
        assert(rule_lines(path, field_name, rule, indent) =~= seq![indent + "if ("@ + path + ".Length "@ + op + " "@ + dec_int(min) + ")"@ + throw_tail(rule->Len_code, field_name, rule->Len_message@)]);
    }
    let op = op2;
    if min < 0 && max >= 0 {
        assert(rule_lines(path, field_name, rule, indent)[0] =~= indent + "if ("@ + path + ".Length "@ + op + " "@ + dec_int(max) + ")"@ + throw_tail(rule->Len_code, field_name, rule->Len_message@));
        assert(rule_lines(path, field_name, rule, indent) =~= seq![indent + "if ("@ + path + ".Length "@ + op + " "@ + dec_int(max) + ")"@ + throw_tail(rule->Len_code, field_name, rule->Len_message@)]);
    }
    assert(seq!['<'].len() == 1 && seq!['<', '='].len() == 2 && seq!['>'].len() == 1);
    assert(seq!['<'][0] != seq!['>'][0]);
    assert(forall|n: int| #[trigger] comparison_holds(op1, n, min) <==> n < min);
    assert(forall|n: int| #[trigger] comparison_holds(op2, n, max) <==> n > max);
}

} // verus!
