//! JavaScript client-side checks of `#[validate]` rules.

use vstd::prelude::*;
use crate::wire::{
    bound_admits, bound_value, comparison_holds, is_bound, length_admits, lemma_operator_texts, rule_code,
    rule_message,
};
use crate::buf::CodeBuf;
use crate::cs::typedefs::{is_tuple_variant, tuple_variant};
use crate::cs::validate::has_work;
use crate::meta_spec::{
    field_size, fields_size, lemma_field_size_le, lemma_variant_size_le, tag_size, variants_size,
};
use crate::model::{EnumVariantMeta, FieldMeta, TagKind, TagMeta, ValidateRule};
use crate::text::{cat2, cat3, cat4, cat5, cat6, dec_i64, dec_int, join, join_seq, starts_with, views};

verus! {

/// The block run when a check fails: report to the error hook, then throw.
pub open spec fn fail_block(code: i64, message: Seq<char>) -> Seq<char> {
    let c = dec_int(code as int);
    "{if(this._onError){this._onError("@ + c + ",'"@ + message + "');}throw new AFastError("@ + c + ",'"@
        + message + "');}"@
}

/// The check lines for one rule on the value at `path`.
pub open spec fn rule_lines(path: Seq<char>, rule: ValidateRule, indent: Seq<char>) -> Seq<Seq<char>> {
    match rule {
        ValidateRule::Gt { value, code, message } => seq![
            indent + "if(!("@ + path + ">"@ + value@ + "))"@ + fail_block(code, message@),
        ],
        ValidateRule::Gte { value, code, message } => seq![
            indent + "if(!("@ + path + ">="@ + value@ + "))"@ + fail_block(code, message@),
        ],
        ValidateRule::Lt { value, code, message } => seq![
            indent + "if(!("@ + path + "<"@ + value@ + "))"@ + fail_block(code, message@),
        ],
        ValidateRule::Lte { value, code, message } => seq![
            indent + "if(!("@ + path + "<="@ + value@ + "))"@ + fail_block(code, message@),
        ],
        ValidateRule::Len { min, max, code, message } => if min >= 0 && max >= 0 {
            seq![
                indent + "if("@ + path + ".length<"@ + dec_int(min as int) + "||"@ + path + ".length>"@
                    + dec_int(max as int) + ")"@ + fail_block(code, message@),
            ]
        } else if min >= 0 {
            seq![indent + "if("@ + path + ".length<"@ + dec_int(min as int) + ")"@ + fail_block(code, message@)]
        } else if max >= 0 {
            seq![indent + "if("@ + path + ".length>"@ + dec_int(max as int) + ")"@ + fail_block(code, message@)]
        } else {
            Seq::empty()
        },
        ValidateRule::Of { values, code, message } => seq![
            indent + "if(!["@ + join_seq(views(values@), ","@) + "].includes("@ + path + "))"@
                + fail_block(code, message@),
        ],
    }
}

/// The check lines for all rules, in order.
pub open spec fn check_lines(path: Seq<char>, rules: Seq<ValidateRule>, indent: Seq<char>) -> Seq<Seq<char>>
    decreases rules.len(),
{
    if rules.len() == 0 {
        Seq::empty()
    } else {
        check_lines(path, rules.drop_last(), indent) + rule_lines(path, rules.last(), indent)
    }
}

fn fail_text(code: i64, message: &str) -> (r: String)
    ensures
        r@ == fail_block(code, message@),
{
    let c = dec_i64(code);
    let a = cat5("{if(this._onError){this._onError(", c.as_str(), ",'", message, "');}throw new AFastError(");
    cat5(a.as_str(), c.as_str(), ",'", message, "');}")
}

/// Emits the checks of `validations` on the value at `field_path`.
pub fn emit_validation_checks_js(cb: &mut CodeBuf, field_path: &str, validations: &Vec<ValidateRule>, indent: &str)
    ensures
        final(cb)@ == old(cb)@ + check_lines(field_path@, validations@, indent@),
{
    let mut i: usize = 0;
    while i < validations.len()
        invariant
            i <= validations@.len(),
            cb@ == old(cb)@ + check_lines(field_path@, validations@.subrange(0, i as int), indent@),
        decreases validations@.len() - i,
    {
        let rule = &validations[i];
        let ghost before = cb@;
        match rule {
            ValidateRule::Gt { value, code, message } => {
                let t = fail_text(*code, message.as_str());
                let line = cat6(indent, "if(!(", field_path, ">", value.as_str(), cat2("))", t.as_str()).as_str());
                assert(line@ =~= indent@ + "if(!("@ + field_path@ + ">"@ + value@ + "))"@ + fail_block(*code, message@));
                cb.push(line);
            },
            ValidateRule::Gte { value, code, message } => {
                let t = fail_text(*code, message.as_str());
                let line = cat6(indent, "if(!(", field_path, ">=", value.as_str(), cat2("))", t.as_str()).as_str());
                assert(line@ =~= indent@ + "if(!("@ + field_path@ + ">="@ + value@ + "))"@ + fail_block(*code, message@));
                cb.push(line);
            },
            ValidateRule::Lt { value, code, message } => {
                let t = fail_text(*code, message.as_str());
                let line = cat6(indent, "if(!(", field_path, "<", value.as_str(), cat2("))", t.as_str()).as_str());
                assert(line@ =~= indent@ + "if(!("@ + field_path@ + "<"@ + value@ + "))"@ + fail_block(*code, message@));
                cb.push(line);
            },
            ValidateRule::Lte { value, code, message } => {
                let t = fail_text(*code, message.as_str());
                let line = cat6(indent, "if(!(", field_path, "<=", value.as_str(), cat2("))", t.as_str()).as_str());
                assert(line@ =~= indent@ + "if(!("@ + field_path@ + "<="@ + value@ + "))"@ + fail_block(*code, message@));
                cb.push(line);
            },
            ValidateRule::Len { min, max, code, message } => {
                let t = fail_text(*code, message.as_str());
                if *min >= 0 && *max >= 0 {
                    let lo = dec_i64(*min);
                    let hi = dec_i64(*max);
                    let a = cat6(indent, "if(", field_path, ".length<", lo.as_str(), "||");
                    let b = cat5(field_path, ".length>", hi.as_str(), ")", t.as_str());
                    let line = cat2(a.as_str(), b.as_str());
                    assert(line@ =~= indent@ + "if("@ + field_path@ + ".length<"@ + dec_int(*min as int) + "||"@ + field_path@ + ".length>"@
                        + dec_int(*max as int) + ")"@ + fail_block(*code, message@));
                    cb.push(line);
                } else if *min >= 0 {
                    let lo = dec_i64(*min);
                    let line = cat6(indent, "if(", field_path, ".length<", lo.as_str(), cat2(")", t.as_str()).as_str());
                    assert(line@ =~= indent@ + "if("@ + field_path@ + ".length<"@ + dec_int(*min as int) + ")"@ + fail_block(*code, message@));
                    cb.push(line);
                } else if *max >= 0 {
                    let hi = dec_i64(*max);
                    let line = cat6(indent, "if(", field_path, ".length>", hi.as_str(), cat2(")", t.as_str()).as_str());
                    assert(line@ =~= indent@ + "if("@ + field_path@ + ".length>"@ + dec_int(*max as int) + ")"@ + fail_block(*code, message@));
                    cb.push(line);
                }
            },
            ValidateRule::Of { values, code, message } => {
                let list = join(values, ",");
                let t = fail_text(*code, message.as_str());
                let line = cat6(indent, "if(![", list.as_str(), "].includes(", field_path, cat2("))", t.as_str()).as_str());
                assert(line@ =~= indent@ + "if(!["@ + join_seq(views(values@), ","@) + "].includes("@ + field_path@ + "))"@
                    + fail_block(*code, message@));
                cb.push(line);
            },
        }
        proof {
            assert(validations@.subrange(0, i + 1).drop_last() =~= validations@.subrange(0, i as int));
            assert(validations@.subrange(0, i + 1).last() == *rule);
            assert(cb@ =~= before + rule_lines(field_path@, *rule, indent@));
        }
        i = i + 1;
    }
    assert(validations@.subrange(0, validations@.len() as int) =~= validations@);
}

/// The checks of the nested type of a field: a struct's fields, or an
/// enum's variants.
pub open spec fn nested_checks(path: Seq<char>, m: TagMeta, indent: Seq<char>) -> Seq<Seq<char>>
    decreases tag_size(m), 3nat, 0nat,
{
    match m.kind {
        TagKind::Struct(nf) => val_fields(path, nf@, indent),
        TagKind::Enum(vs) => val_variants(path, vs@, indent),
    }
}

/// The line that binds a present optional field to a temporary.
pub open spec fn bind_line(indent: Seq<char>, path: Seq<char>, tmp: Seq<char>) -> Seq<char> {
    indent + "if("@ + path + "!=null){const "@ + tmp + "="@ + path + ";"@
}

/// The checks for one included field of the value at `prefix`; an
/// optional field (by its type as written) is checked only when present.
pub open spec fn val_field(prefix: Seq<char>, f: FieldMeta, indent: Seq<char>) -> Seq<Seq<char>>
    decreases field_size(f), 4nat, 0nat,
{
    let opt = "Option<"@.is_prefix_of(f.ty@);
    let path = prefix + "."@ + f.name@;
    let tmp = "_tmp"@ + f.name@;
    let inner = indent + "    "@;
    if opt && f.validations@.len() > 0 {
        seq![bind_line(indent, path, tmp)] + check_lines(tmp, f.validations@, inner) + match f.structure {
            Some(s) => nested_checks(tmp, *s, inner),
            None => Seq::empty(),
        } + seq![indent + "}"@]
    } else {
        let checks = check_lines(path, f.validations@, indent);
        match f.structure {
            Some(s) => if opt {
                checks + seq![bind_line(indent, path, tmp)] + nested_checks(tmp, *s, inner) + seq![
                    indent + "}"@,
                ]
            } else {
                checks + nested_checks(path, *s, indent)
            },
            None => checks,
        }
    }
}

/// The checks for the included fields of the value at `prefix`.
pub open spec fn val_fields(prefix: Seq<char>, fields: Seq<FieldMeta>, indent: Seq<char>) -> Seq<Seq<char>>
    decreases fields_size(fields), 5nat, fields.len(),
{
    if fields.len() == 0 {
        Seq::empty()
    } else {
        let rest = val_fields(prefix, fields.drop_last(), indent);
        if fields.last().skip {
            rest
        } else {
            rest + val_field(prefix, fields.last(), indent)
        }
    }
}

/// The line that guards a variant's checks by its tag.
pub open spec fn tag_line(indent: Seq<char>, prefix: Seq<char>, tag: Seq<char>) -> Seq<char> {
    indent + "if("@ + prefix + ".tag==='"@ + tag + "'){"@
}

/// The checks of every variant of the enum value at `prefix`.
pub open spec fn val_variants(prefix: Seq<char>, variants: Seq<EnumVariantMeta>, indent: Seq<char>) -> Seq<Seq<char>>
    decreases variants_size(variants), 6nat, variants.len(),
{
    if variants.len() == 0 {
        Seq::empty()
    } else {
        let rest = val_variants(prefix, variants.drop_last(), indent);
        let v = variants.last();
        let open_line = tag_line(indent, prefix, v.name@);
        let inner = indent + "    "@;
        let data = prefix + ".data"@;
        let close = seq![indent + "}"@];
        if v.fields@.len() == 0 {
            rest
        } else if is_tuple_variant(v) {
            let f = v.fields@[0];
            proof {
                lemma_field_size_le(v.fields@, 0);
                assert(variants_size(variants) == variants_size(variants.drop_last()) + fields_size(v.fields@));
            }
            let checks = if f.validations@.len() > 0 {
                seq![open_line] + check_lines(data, f.validations@, inner) + close
            } else {
                Seq::empty()
            };
            let nested = match f.structure {
                Some(s) => {
                    proof {
                        assert(tag_size(*s) == field_size(f));
                    }
                    seq![open_line] + nested_checks(data, *s, inner) + close
                },
                None => Seq::empty(),
            };
            rest + checks + nested
        } else if has_work(v.fields@) {
            rest + seq![open_line] + val_fields(data, v.fields@, inner) + close
        } else {
            rest
        }
    }
}

fn push_tag_line(cb: &mut CodeBuf, indent: &str, prefix: &str, tag: &str)
    ensures
        final(cb)@ == old(cb)@.push(tag_line(indent@, prefix@, tag@)),
{
    let line = cat5(indent, "if(", prefix, ".tag==='", cat2(tag, "'){").as_str());
    assert(line@ =~= tag_line(indent@, prefix@, tag@));
    cb.push(line);
}

fn nested_validation_js(cb: &mut CodeBuf, path: &str, m: &TagMeta, indent: &str)
    ensures
        final(cb)@ == old(cb)@ + nested_checks(path@, *m, indent@),
    decreases tag_size(*m), 3nat, 0nat,
{
    match &m.kind {
        TagKind::Struct(nf) => {
            assert(fields_size(nf@) < tag_size(*m));
            generate_validation_js(cb, path, nf, indent);
        },
        TagKind::Enum(vs) => {
            assert(variants_size(vs@) < tag_size(*m));
            generate_enum_validation_js(cb, path, vs, indent);
        },
    }
}

fn validate_field_js(cb: &mut CodeBuf, prefix: &str, f: &FieldMeta, indent: &str)
    ensures
        final(cb)@ == old(cb)@ + val_field(prefix@, *f, indent@),
    decreases field_size(*f), 4nat, 0nat,
{
    let opt = starts_with(f.ty.as_str(), "Option<");
    let path = cat3(prefix, ".", f.name.as_str());
    let tmp = cat2("_tmp", f.name.as_str());
    let inner = cat2(indent, "    ");
    let ghost start = cb@;
    if opt && f.validations.len() > 0 {
        let open_line = cat6(indent, "if(", path.as_str(), "!=null){const ", tmp.as_str(), cat3("=", path.as_str(), ";").as_str());
        assert(open_line@ =~= bind_line(indent@, path@, tmp@));
        cb.push(open_line);
        emit_validation_checks_js(cb, tmp.as_str(), &f.validations, inner.as_str());
        match &f.structure {
            Some(s) => {
                assert(tag_size(**s) == field_size(*f));
                nested_validation_js(cb, tmp.as_str(), s, inner.as_str());
            },
            None => {},
        }
        cb.push(cat2(indent, "}"));
        proof {
            assert(cb@ =~= start + val_field(prefix@, *f, indent@));
        }
    } else {
        emit_validation_checks_js(cb, path.as_str(), &f.validations, indent);
        let ghost checked = cb@;
        match &f.structure {
            Some(s) => {
                assert(tag_size(**s) == field_size(*f));
                if opt {
                    let open_line = cat6(indent, "if(", path.as_str(), "!=null){const ", tmp.as_str(), cat3("=", path.as_str(), ";").as_str());
                    assert(open_line@ =~= bind_line(indent@, path@, tmp@));
                    cb.push(open_line);
                    nested_validation_js(cb, tmp.as_str(), s, inner.as_str());
                    cb.push(cat2(indent, "}"));
                    assert(cb@ =~= checked + seq![bind_line(indent@, path@, tmp@)] + nested_checks(tmp@, **s, inner@)
                        + seq![indent@ + "}"@]);
                } else {
                    nested_validation_js(cb, path.as_str(), s, indent);
                }
            },
            None => {},
        }
    }
}

/// Emits the checks of the included fields of the value at `var_prefix`.
pub fn generate_validation_js(cb: &mut CodeBuf, var_prefix: &str, fields: &Vec<FieldMeta>, indent: &str)
    ensures
        final(cb)@ == old(cb)@ + val_fields(var_prefix@, fields@, indent@),
    decreases fields_size(fields@), 5nat, fields@.len(),
{
    let mut i: usize = 0;
    while i < fields.len()
        invariant
            i <= fields@.len(),
            cb@ == old(cb)@ + val_fields(var_prefix@, fields@.subrange(0, i as int), indent@),
        decreases fields@.len() - i,
    {
        let f = &fields[i];
        proof {
            lemma_field_size_le(fields@, i as int);
            assert(fields@.subrange(0, i + 1).drop_last() =~= fields@.subrange(0, i as int));
            assert(fields@.subrange(0, i + 1).last() == *f);
        }
        let ghost before = cb@;
        if !f.skip {
            validate_field_js(cb, var_prefix, f, indent);
            assert(cb@ =~= before + val_field(var_prefix@, *f, indent@));
        }
        i = i + 1;
    }
    assert(fields@.subrange(0, fields@.len() as int) =~= fields@);
}

fn fields_have_work(fields: &Vec<FieldMeta>) -> (r: bool)
    ensures
        r == has_work(fields@),
{
    let mut i: usize = 0;
    while i < fields.len()
        invariant
            i <= fields@.len(),
            forall|j: int| 0 <= j < i ==> !(fields@[j].validations@.len() > 0 || fields@[j].structure is Some),
        decreases fields@.len() - i,
    {
        if fields[i].validations.len() > 0 || fields[i].structure.is_some() {
            return true;
        }
        i = i + 1;
    }
    false
}

/// Emits the checks of each variant of the enum value at `var_prefix`,
/// each guarded by the variant's tag.
pub fn generate_enum_validation_js(cb: &mut CodeBuf, var_prefix: &str, variants: &Vec<EnumVariantMeta>, indent: &str)
    ensures
        final(cb)@ == old(cb)@ + val_variants(var_prefix@, variants@, indent@),
    decreases variants_size(variants@), 6nat, variants@.len(),
{
    let mut i: usize = 0;
    while i < variants.len()
        invariant
            i <= variants@.len(),
            cb@ == old(cb)@ + val_variants(var_prefix@, variants@.subrange(0, i as int), indent@),
        decreases variants@.len() - i,
    {
        let v = &variants[i];
        proof {
            lemma_variant_size_le(variants@, i as int);
            assert(variants@.subrange(0, i + 1).drop_last() =~= variants@.subrange(0, i as int));
            assert(variants@.subrange(0, i + 1).last() == *v);
        }
        let ghost before = cb@;
        let inner = cat2(indent, "    ");
        let data = cat2(var_prefix, ".data");
        if v.fields.len() == 0 {
        } else if tuple_variant(v) {
            let f = &v.fields[0];
            proof {
                lemma_field_size_le(v.fields@, 0);
            }
            if f.validations.len() > 0 {
                push_tag_line(cb, indent, var_prefix, v.name.as_str());
                emit_validation_checks_js(cb, data.as_str(), &f.validations, inner.as_str());
                cb.push(cat2(indent, "}"));
            }
            let ghost mid = cb@;
            proof {
                let open_line = tag_line(indent@, var_prefix@, v.name@);
                let checks = if f.validations@.len() > 0 {
                    seq![open_line] + check_lines(data@, f.validations@, inner@) + seq![indent@ + "}"@]
                } else {
                    Seq::empty()
                };
                assert(mid =~= before + checks);
            }
            match &f.structure {
                Some(s) => {
                    assert(tag_size(**s) == field_size(*f));
                    push_tag_line(cb, indent, var_prefix, v.name.as_str());
                    nested_validation_js(cb, data.as_str(), s, inner.as_str());
                    cb.push(cat2(indent, "}"));
                },
                None => {},
            }
            proof {
                let open_line = tag_line(indent@, var_prefix@, v.name@);
                let nested = match v.fields@[0].structure {
                    Some(s) => seq![open_line] + nested_checks(data@, *s, inner@) + seq![indent@ + "}"@],
                    None => Seq::empty(),
                };
                assert(cb@ =~= mid + nested);
            }
        } else if fields_have_work(&v.fields) {
            push_tag_line(cb, indent, var_prefix, v.name.as_str());
            generate_validation_js(cb, data.as_str(), &v.fields, inner.as_str());
            cb.push(cat2(indent, "}"));
        }
        proof {
            assert(cb@ =~= old(cb)@ + val_variants(var_prefix@, variants@.subrange(0, i + 1), indent@));
        }
        i = i + 1;
    }
    assert(variants@.subrange(0, variants@.len() as int) =~= variants@);
}

/// A bound rule becomes one check that fails for exactly the values the
/// rule does not admit: the line is `if(!(pathOPbound)) {..throw..}` where
/// the operator holds of a value and the bound exactly when the rule admits
/// the value (`<=` for `Lte`).
pub proof fn law_js_bound_checks_refuse_exactly_what_the_rule_refuses(
    path: Seq<char>,
    rule: ValidateRule,
    indent: Seq<char>,
)
    requires
        is_bound(rule),
    ensures
        exists|op: Seq<char>|
            rule_lines(path, rule, indent) == seq![indent + "if(!("@ + path + op + bound_value(rule) + "))"@ + fail_block(rule_code(rule), rule_message(rule))] && forall|x: int, v: int|
                #[trigger] comparison_holds(op, x, v) <==> bound_admits(rule, x, v),
{
    lemma_operator_texts();
    let op: Seq<char> = match rule {
        ValidateRule::Gt { .. } => ">"@,
        ValidateRule::Gte { .. } => ">="@,
        ValidateRule::Lt { .. } => "<"@,
        _ => "<="@,
    };
    assert forall|x: int, v: int| #[trigger] comparison_holds(op, x, v) <==> bound_admits(rule, x, v) by {
        assert(seq!['<'].len() == 1 && seq!['<', '='].len() == 2 && seq!['>'].len() == 1);
        assert(seq!['<'][0] != seq!['>'][0]);
        assert(seq!['<', '='][0] != seq!['>', '='][0]);
    }
    assert(rule_lines(path, rule, indent) =~= seq![indent + "if(!("@ + path + op + bound_value(rule) + "))"@ + fail_block(rule_code(rule), rule_message(rule))]);
}

/// A length rule becomes checks that refuse exactly the lengths the rule
/// does not admit: with both bounds, one test `if(..||..)` joining a
/// comparison of the length with each bound; with one bound, a test of
/// that bound alone; with none, no check. Each comparison holds of a length
/// and its bound exactly when that bound refuses the length (`<` against
/// the least length, `>` against the greatest), so lengths equal to a bound
/// pass.
pub proof fn law_js_length_checks_refuse_exactly_what_the_rule_refuses(path: Seq<char>, rule: ValidateRule, indent: Seq<char>)
    requires
        rule is Len,
    ensures
        ({
            let min = rule->Len_min as int;
            let max = rule->Len_max as int;
            &&& (min >= 0 && max >= 0 ==> exists|op1: Seq<char>, op2: Seq<char>|
                rule_lines(path, rule, indent) == seq![indent + "if("@ + path + ".length"@ + op1 + dec_int(min) + "||"@ + path + ".length"@ + op2 + dec_int(max) + ")"@ + fail_block(rule->Len_code, rule->Len_message@)] && forall|n: int|
                    (#[trigger] comparison_holds(op1, n, min) || comparison_holds(op2, n, max)) <==> !length_admits(rule, n))
            &&& (min >= 0 && max < 0 ==> exists|op: Seq<char>|
                rule_lines(path, rule, indent) == seq![indent + "if("@ + path + ".length"@ + op + dec_int(min) + ")"@ + fail_block(rule->Len_code, rule->Len_message@)] && forall|n: int|
                    #[trigger] comparison_holds(op, n, min) <==> !length_admits(rule, n))
            &&& (min < 0 && max >= 0 ==> exists|op: Seq<char>|
                rule_lines(path, rule, indent) == seq![indent + "if("@ + path + ".length"@ + op + dec_int(max) + ")"@ + fail_block(rule->Len_code, rule->Len_message@)] && forall|n: int|
                    #[trigger] comparison_holds(op, n, max) <==> !length_admits(rule, n))
            &&& (min < 0 && max < 0 ==> rule_lines(path, rule, indent) == Seq::<Seq<char>>::empty()
                && forall|n: int| #[trigger] length_admits(rule, n))
        }),
{
    lemma_operator_texts();
    reveal_strlit("if(");
    reveal_strlit(".length<");
    reveal_strlit(".length>");
    reveal_strlit("||");
    reveal_strlit(".length");
    let min = rule->Len_min as int;
    let max = rule->Len_max as int;
    let op1: Seq<char> = "<"@;
    let op2: Seq<char> = ">"@;
    let op = op1;
    if min >= 0 && max >= 0 {
        assert(rule_lines(path, rule, indent)[0] =~= indent + "if("@ + path + ".length"@ + op1 + dec_int(min) + "||"@ + path + ".length"@ + op2 + dec_int(max) + ")"@ + fail_block(rule->Len_code, rule->Len_message@));
        assert(rule_lines(path, rule, indent) =~= seq![indent + "if("@ + path + ".length"@ + op1 + dec_int(min) + "||"@ + path + ".length"@ + op2 + dec_int(max) + ")"@ + fail_block(rule->Len_code, rule->Len_message@)]);
    }
    if min >= 0 && max < 0 {
        assert(rule_lines(path, rule, indent)[0] =~= indent + "if("@ + path + ".length"@ + op + dec_int(min) + ")"@ + fail_block(rule->Len_code, rule->Len_message@));
        assert(rule_lines(path, rule, indent) =~= seq![indent + "if("@ + path + ".length"@ + op + dec_int(min) + ")"@ + fail_block(rule->Len_code, rule->Len_message@)]);
    }
    let op = op2;
    if min < 0 && max >= 0 {
        assert(rule_lines(path, rule, indent)[0] =~= indent + "if("@ + path + ".length"@ + op + dec_int(max) + ")"@ + fail_block(rule->Len_code, rule->Len_message@));
        assert(rule_lines(path, rule, indent) =~= seq![indent + "if("@ + path + ".length"@ + op + dec_int(max) + ")"@ + fail_block(rule->Len_code, rule->Len_message@)]);
    }
    assert(seq!['<'].len() == 1 && seq!['<', '='].len() == 2 && seq!['>'].len() == 1);
    assert(seq!['<'][0] != seq!['>'][0]);
    assert(forall|n: int| #[trigger] comparison_holds(op1, n, min) <==> n < min);
    assert(forall|n: int| #[trigger] comparison_holds(op2, n, max) <==> n > max);
}

} // verus!
