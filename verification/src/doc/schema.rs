//! The JSON schema of a service that the documentation page renders: its
//! Custom and Header types, the layouts of its tagged types, and its
//! handler tree.

use vstd::prelude::*;
use crate::doc::assets::{
    UI_JS_1, UI_JS_2, UI_JS_3, UI_JS_4, UI_JS_RULE_CHECKS, UI_JS_4_REST, UI_JS_5, UI_JS_6, UI_JS_7, UI_JS_8, UI_JS_9, UI_JS_10, UI_JS_11, UI_JS_12, UI_JS_13, UI_JS_14, UI_JS_15, UI_JS_16, UI_JS_17, UI_JS_18, UI_JS_19, UI_JS_20, UI_JS_21, UI_JS_22, UI_JS_23, UI_JS_24, UI_JS_25, ui_js_text,
};
use crate::wire::{
    bound_admits, bound_value, comparison_holds, is_bound, lemma_operator_texts, rule_code, rule_message,
};
use crate::json::{json_key, json_string, JsonBuilder};
use crate::meta_spec::{
    field_size, fields_size, lemma_field_size_le, lemma_variant_size_le, reach, reach_fields, reach_tags,
    reach_tags_fields, reach_tags_variants, reach_variants, tag_size, variants_size,
};
use crate::headers::{is_standard_header, standard_header};
use crate::model::{EnumVariantMeta, FieldMeta, Handler, OrdinaryRoute, ParamMeta, Service, TagKind, TagMeta, ValidateRule};
use crate::naming::{header_name_of, to_header_name};
use crate::text::{dec_int, join, join_seq, owned, str_eq, views};
use crate::typemap::{is_primitive, is_primitive_type};

verus! {

/// `true` or `false`.
pub open spec fn jbool(b: bool) -> Seq<char> {
    if b {
        "true"@
    } else {
        "false"@
    }
}

/// A reference to a tagged type by name, or `null`.
pub open spec fn structure_ref(st: Option<Box<TagMeta>>) -> Seq<char> {
    match st {
        Some(s) => json_string(s.name@),
        None => "null"@,
    }
}

/// The start of a rule object, up to its name.
pub open spec fn rule_head(name: Seq<char>) -> Seq<char> {
    "{"@ + json_key("rule"@) + json_string(name) + ","@
}

/// The end of a rule object: its code and message.
pub open spec fn rule_tail(code: i64, message: Seq<char>) -> Seq<char> {
    json_key("code"@) + dec_int(code as int) + ","@ + json_key("message"@) + json_string(message) + "}"@
}

/// A bound rule object (`gt`, `gte`, `lt`, `lte`).
pub open spec fn bound_json(name: Seq<char>, value: Seq<char>, code: i64, message: Seq<char>) -> Seq<char> {
    rule_head(name) + json_key("value"@) + value + ","@ + rule_tail(code, message)
}

/// The JSON strings of `values`.
pub open spec fn string_items(values: Seq<String>) -> Seq<Seq<char>> {
    values.map_values(|v: String| json_string(v@))
}

/// The JSON object describing one validation rule.
pub open spec fn rule_json(r: ValidateRule) -> Seq<char> {
    match r {
        ValidateRule::Gt { value, code, message } => bound_json("gt"@, value@, code, message@),
        ValidateRule::Gte { value, code, message } => bound_json("gte"@, value@, code, message@),
        ValidateRule::Lt { value, code, message } => bound_json("lt"@, value@, code, message@),
        ValidateRule::Lte { value, code, message } => bound_json("lte"@, value@, code, message@),
        ValidateRule::Len { min, max, code, message } => rule_head("len"@) + json_key("min"@) + dec_int(min as int)
            + ","@ + json_key("max"@) + dec_int(max as int) + ","@ + rule_tail(code, message@),
        ValidateRule::Of { values, code, message } => rule_head("of"@) + json_key("values"@) + "["@ + join_seq(
            string_items(values@),
            ","@,
        ) + "]"@ + ","@ + rule_tail(code, message@),
    }
}

/// The `"validations":[..]` member listing `rules` in order.
pub open spec fn validations_json(rules: Seq<ValidateRule>) -> Seq<char> {
    json_key("validations"@) + "["@ + join_seq(rules.map_values(|r: ValidateRule| rule_json(r)), ","@) + "]"@
}

/// The JSON object describing one field of a tagged type.
pub open spec fn field_json(f: FieldMeta) -> Seq<char> {
    "{"@ + json_key("name"@) + json_string(f.name@) + ","@ + json_key("ty"@) + json_string(f.ty@) + ","@
        + json_key("desc"@) + json_string(f.desc@) + ","@ + json_key("structure"@) + structure_ref(f.structure)
        + ","@ + json_key("primitive"@) + jbool(is_primitive_type(f.ty@)) + ","@ + validations_json(
        f.validations@,
    ) + "}"@
}

/// The objects of the included fields, in order.
pub open spec fn field_items(fs: Seq<FieldMeta>) -> Seq<Seq<char>>
    decreases fs.len(),
{
    if fs.len() == 0 {
        Seq::empty()
    } else {
        let rest = field_items(fs.drop_last());
        if fs.last().skip {
            rest
        } else {
            rest.push(field_json(fs.last()))
        }
    }
}

/// The JSON object describing one enum variant and its included fields.
pub open spec fn variant_json(v: EnumVariantMeta) -> Seq<char> {
    "{"@ + json_key("name"@) + json_string(v.name@) + ","@ + json_key("fields"@) + "["@ + join_seq(
        field_items(v.fields@),
        ","@,
    ) + "]"@ + "}"@
}

/// The members of a type object that depend on its kind.
pub open spec fn kind_json(k: TagKind) -> Seq<char> {
    match k {
        TagKind::Struct(fs) => json_key("kind"@) + json_string("struct"@) + ","@ + json_key("fields"@) + "["@
            + join_seq(field_items(fs@), ","@) + "]"@,
        TagKind::Enum(vs) => json_key("kind"@) + json_string("enum"@) + ","@ + json_key("variants"@) + "["@
            + join_seq(vs@.map_values(|v: EnumVariantMeta| variant_json(v)), ","@) + "]"@,
    }
}

/// The JSON object describing a tagged struct or enum.
pub open spec fn type_json(m: TagMeta) -> Seq<char> {
    "{"@ + json_key("name"@) + json_string(m.name@) + ","@ + json_key("desc"@) + json_string(m.desc@) + ","@
        + kind_json(m.kind) + "}"@
}

proof fn lemma_punct()
    ensures
        "{"@ == seq!['{'],
        "}"@ == seq!['}'],
        "["@ == seq!['['],
        "]"@ == seq![']'],
        ","@ == seq![','],
        ""@ == Seq::<char>::empty(),
{
    reveal_strlit("");
    reveal_strlit("{");
    reveal_strlit("}");
    reveal_strlit("[");
    reveal_strlit("]");
    reveal_strlit(",");
}

proof fn lemma_join_push(parts: Seq<Seq<char>>, x: Seq<char>, sep: Seq<char>)
    ensures
        join_seq(parts.push(x), sep) == if parts.len() == 0 {
            x
        } else {
            join_seq(parts, sep) + sep + x
        },
{
    assert(parts.push(x).drop_last() =~= parts);
}

fn json_text(jb: JsonBuilder) -> (r: String)
    ensures
        r@ == jb@,
{
    jb.build()
}

/// Returns the JSON strings of `values`.
fn string_items_text(values: &Vec<String>) -> (r: Vec<String>)
    ensures
        views(r@) == string_items(values@),
{
    let mut r: Vec<String> = Vec::new();
    let mut i: usize = 0;
    while i < values.len()
        invariant
            i <= values@.len(),
            views(r@) == string_items(values@.subrange(0, i as int)),
        decreases values@.len() - i,
    {
        let mut jb = JsonBuilder::new();
        jb.string(values[i].as_str());
        let ghost before = r@;
        r.push(json_text(jb));
        proof {
            assert(values@.subrange(0, i + 1) =~= values@.subrange(0, i as int).push(values@[i as int]));
            assert(views(r@) =~= views(before).push(json_string(values@[i as int]@)));
        }
        i = i + 1;
    }
    assert(values@.subrange(0, values@.len() as int) =~= values@);
    r
}

fn rule_head_text(jb: &mut JsonBuilder, name: &str)
    ensures
        final(jb)@ == old(jb)@ + rule_head(name@),
{
    proof {
        lemma_punct();
    }
    let ghost start = jb@;
    jb.object_start();
    jb.key("rule");
    jb.string(name);
    jb.comma();
    assert(jb@ =~= start + rule_head(name@));
}

fn rule_tail_text(jb: &mut JsonBuilder, code: i64, message: &str)
    ensures
        final(jb)@ == old(jb)@ + rule_tail(code, message@),
{
    proof {
        lemma_punct();
    }
    let ghost start = jb@;
    jb.key("code");
    jb.i64(code);
    jb.comma();
    jb.key("message");
    jb.string(message);
    jb.object_end();
    assert(jb@ =~= start + rule_tail(code, message@));
}

fn bound_text(jb: &mut JsonBuilder, name: &str, value: &str, code: i64, message: &str)
    ensures
        final(jb)@ == old(jb)@ + bound_json(name@, value@, code, message@),
{
    proof {
        lemma_punct();
    }
    let ghost start = jb@;
    rule_head_text(jb, name);
    jb.key("value");
    jb.float_text(value);
    jb.comma();
    rule_tail_text(jb, code, message);
    assert(jb@ =~= start + bound_json(name@, value@, code, message@));
}

fn rule_text(jb: &mut JsonBuilder, r: &ValidateRule)
    ensures
        final(jb)@ == old(jb)@ + rule_json(*r),
{
    proof {
        lemma_punct();
    }
    let ghost start = jb@;
    match r {
        ValidateRule::Gt { value, code, message } => bound_text(jb, "gt", value.as_str(), *code, message.as_str()),
        ValidateRule::Gte { value, code, message } => bound_text(jb, "gte", value.as_str(), *code, message.as_str()),
        ValidateRule::Lt { value, code, message } => bound_text(jb, "lt", value.as_str(), *code, message.as_str()),
        ValidateRule::Lte { value, code, message } => bound_text(jb, "lte", value.as_str(), *code, message.as_str()),
        ValidateRule::Len { min, max, code, message } => {
            rule_head_text(jb, "len");
            jb.key("min");
            jb.i64(*min);
            jb.comma();
            jb.key("max");
            jb.i64(*max);
            jb.comma();
            rule_tail_text(jb, *code, message.as_str());
            assert(jb@ =~= start + rule_json(*r));
        },
        ValidateRule::Of { values, code, message } => {
            rule_head_text(jb, "of");
            jb.key("values");
            jb.array_start();
            let items = string_items_text(values);
            let j = join(&items, ",");
            jb.raw(j.as_str());
            jb.array_end();
            jb.comma();
            rule_tail_text(jb, *code, message.as_str());
            assert(jb@ =~= start + rule_json(*r));
        },
    }
}

/// Writes the `"validations":[..]` member listing `validations` in order.
pub fn emit_validations(jb: &mut JsonBuilder, validations: &Vec<ValidateRule>)
    ensures
        final(jb)@ == old(jb)@ + validations_json(validations@),
{
    proof {
        lemma_punct();
    }
    let ghost start = jb@;
    jb.key("validations");
    jb.array_start();
    let ghost open = jb@;
    let mut i: usize = 0;
    while i < validations.len()
        invariant
            i <= validations@.len(),
            jb@ == open + join_seq(
                validations@.subrange(0, i as int).map_values(|r: ValidateRule| rule_json(r)),
                ","@,
            ),
        decreases validations@.len() - i,
    {
        let ghost pre = validations@.subrange(0, i as int).map_values(|r: ValidateRule| rule_json(r));
        proof {
            lemma_punct();
        }
        if i > 0 {
            jb.comma();
        }
        rule_text(jb, &validations[i]);
        proof {
            assert(validations@.subrange(0, i + 1).map_values(|r: ValidateRule| rule_json(r)) =~= pre.push(
                rule_json(validations@[i as int]),
            ));
            lemma_join_push(pre, rule_json(validations@[i as int]), ","@);
        }
        i = i + 1;
    }
    jb.array_end();
    assert(validations@.subrange(0, validations@.len() as int) =~= validations@);
    assert(jb@ =~= start + validations_json(validations@));
}

fn structure_ref_text(jb: &mut JsonBuilder, st: &Option<Box<TagMeta>>)
    ensures
        final(jb)@ == old(jb)@ + structure_ref(*st),
{
    match st {
        Some(s) => jb.string(s.name.as_str()),
        None => jb.null(),
    }
}

/// Returns the JSON object describing a field.
pub fn field_json_text(f: &FieldMeta) -> (r: String)
    ensures
        r@ == field_json(*f),
{
    proof {
        lemma_punct();
    }
    let mut jb = JsonBuilder::new();
    jb.object_start();
    jb.key("name");
    jb.string(f.name.as_str());
    jb.comma();
    jb.key("ty");
    jb.string(f.ty.as_str());
    jb.comma();
    jb.key("desc");
    jb.string(f.desc.as_str());
    jb.comma();
    let ghost mid = jb@;
    jb.key("structure");
    structure_ref_text(&mut jb, &f.structure);
    jb.comma();
    jb.key("primitive");
    jb.bool(is_primitive(f.ty.as_str()));
    jb.comma();
    emit_validations(&mut jb, &f.validations);
    jb.object_end();
    assert(jb@ =~= field_json(*f));
    json_text(jb)
}

fn field_items_text(fs: &Vec<FieldMeta>) -> (r: Vec<String>)
    ensures
        views(r@) == field_items(fs@),
{
    let mut r: Vec<String> = Vec::new();
    let mut i: usize = 0;
    while i < fs.len()
        invariant
            i <= fs@.len(),
            views(r@) == field_items(fs@.subrange(0, i as int)),
        decreases fs@.len() - i,
    {
        proof {
            assert(fs@.subrange(0, i + 1).drop_last() =~= fs@.subrange(0, i as int));
        }
        if !fs[i].skip {
            let ghost before = r@;
            r.push(field_json_text(&fs[i]));
            assert(views(r@) =~= views(before).push(field_json(fs@[i as int])));
        }
        i = i + 1;
    }
    assert(fs@.subrange(0, fs@.len() as int) =~= fs@);
    r
}

fn variant_json_text(v: &EnumVariantMeta) -> (r: String)
    ensures
        r@ == variant_json(*v),
{
    proof {
        lemma_punct();
    }
    let mut jb = JsonBuilder::new();
    jb.object_start();
    jb.key("name");
    jb.string(v.name.as_str());
    jb.comma();
    jb.key("fields");
    jb.array_start();
    let items = field_items_text(&v.fields);
    let j = join(&items, ",");
    jb.raw(j.as_str());
    jb.array_end();
    jb.object_end();
    assert(jb@ =~= variant_json(*v));
    json_text(jb)
}

fn variant_items_text(vs: &Vec<EnumVariantMeta>) -> (r: Vec<String>)
    ensures
        views(r@) == vs@.map_values(|v: EnumVariantMeta| variant_json(v)),
{
    let mut r: Vec<String> = Vec::new();
    let mut i: usize = 0;
    while i < vs.len()
        invariant
            i <= vs@.len(),
            views(r@) == vs@.subrange(0, i as int).map_values(|v: EnumVariantMeta| variant_json(v)),
        decreases vs@.len() - i,
    {
        let ghost before = r@;
        r.push(variant_json_text(&vs[i]));
        proof {
            assert(vs@.subrange(0, i + 1) =~= vs@.subrange(0, i as int).push(vs@[i as int]));
            assert(views(r@) =~= views(before).push(variant_json(vs@[i as int])));
        }
        i = i + 1;
    }
    assert(vs@.subrange(0, vs@.len() as int) =~= vs@);
    r
}

fn fields_kind_text(jb: &mut JsonBuilder, fs: &Vec<FieldMeta>)
    ensures
        final(jb)@ == old(jb)@ + kind_json(TagKind::Struct(*fs)),
{
    proof {
        lemma_punct();
    }
    let ghost head = jb@;
    jb.key("kind");
    jb.string("struct");
    jb.comma();
    jb.key("fields");
    jb.array_start();
    let items = field_items_text(fs);
    let j = join(&items, ",");
    jb.raw(j.as_str());
    jb.array_end();
    assert(jb@ =~= head + kind_json(TagKind::Struct(*fs)));
}

fn variants_kind_text(jb: &mut JsonBuilder, vs: &Vec<EnumVariantMeta>)
    ensures
        final(jb)@ == old(jb)@ + kind_json(TagKind::Enum(*vs)),
{
    proof {
        lemma_punct();
    }
    let ghost head = jb@;
    jb.key("kind");
    jb.string("enum");
    jb.comma();
    jb.key("variants");
    jb.array_start();
    let items = variant_items_text(vs);
    let j = join(&items, ",");
    jb.raw(j.as_str());
    jb.array_end();
    assert(jb@ =~= head + kind_json(TagKind::Enum(*vs)));
}

fn kind_text(jb: &mut JsonBuilder, k: &TagKind)
    ensures
        final(jb)@ == old(jb)@ + kind_json(*k),
{
    match k {
        TagKind::Struct(fs) => fields_kind_text(jb, fs),
        TagKind::Enum(vs) => variants_kind_text(jb, vs),
    }
}

/// Returns the JSON object describing a tagged struct or enum.
pub fn type_json_text(m: &TagMeta) -> (r: String)
    ensures
        r@ == type_json(*m),
{
    proof {
        lemma_punct();
    }
    let mut jb = JsonBuilder::new();
    jb.object_start();
    jb.key("name");
    jb.string(m.name.as_str());
    jb.comma();
    jb.key("desc");
    jb.string(m.desc.as_str());
    jb.comma();
    kind_text(&mut jb, &m.kind);
    jb.object_end();
    assert(jb@ =~= type_json(*m));
    json_text(jb)
}

/// The entries of a type table: each type name with its JSON object.
pub type Entries = Seq<(Seq<char>, Seq<char>)>;

/// The position of the first entry named `k`, if any.
pub open spec fn key_pos(es: Entries, k: Seq<char>) -> Option<int>
    decreases es.len(),
{
    if es.len() == 0 {
        None
    } else {
        match key_pos(es.drop_last(), k) {
            Some(i) => Some(i),
            None => if es.last().0 == k {
                Some(es.len() - 1)
            } else {
                None
            },
        }
    }
}

/// `es` with `k` bound to `v`: an existing entry is overwritten in place, a
/// new one is added at the end.
pub open spec fn entries_insert(es: Entries, k: Seq<char>, v: Seq<char>) -> Entries {
    match key_pos(es, k) {
        Some(i) => es.update(i, (k, v)),
        None => es.push((k, v)),
    }
}

/// No name occurs twice among the entries.
pub open spec fn unique_keys(es: Entries) -> bool {
    forall|i: int, j: int| 0 <= i < j < es.len() ==> es[i].0 != es[j].0
}

proof fn lemma_key_pos(es: Entries, k: Seq<char>)
    ensures
        match key_pos(es, k) {
            Some(i) => 0 <= i < es.len() && es[i].0 == k && forall|j: int| 0 <= j < i ==> es[j].0 != k,
            None => forall|j: int| 0 <= j < es.len() ==> es[j].0 != k,
        },
    decreases es.len(),
{
    if es.len() > 0 {
        lemma_key_pos(es.drop_last(), k);
        assert forall|j: int| 0 <= j < es.len() - 1 implies es.drop_last()[j] == es[j] by {}
    }
}

/// Inserting keeps every name unique.
pub proof fn lemma_insert_unique(es: Entries, k: Seq<char>, v: Seq<char>)
    requires
        unique_keys(es),
    ensures
        unique_keys(entries_insert(es, k, v)),
        key_pos(entries_insert(es, k, v), k) is Some,
{
    lemma_key_pos(es, k);
    let r = entries_insert(es, k, v);
    lemma_key_pos(r, k);
    match key_pos(es, k) {
        Some(i) => {
            assert(r[i].0 == k);
        },
        None => {
            assert(r[es.len() as int].0 == k);
        },
    }
}

/// The table of type descriptions a schema is built from, keyed by type
/// name; each name occurs once.
pub struct TypeTable {
    entries: Vec<(String, String)>,
}

/// The views of the table's entries.
pub open spec fn entry_views(v: Seq<(String, String)>) -> Entries {
    v.map_values(|e: (String, String)| (e.0@, e.1@))
}

impl View for TypeTable {
    type V = Entries;

    closed spec fn view(&self) -> Entries {
        entry_views(self.entries@)
    }
}

impl TypeTable {
    /// An empty table.
    pub fn new() -> (r: Self)
        ensures
            r@ == Seq::<(Seq<char>, Seq<char>)>::empty(),
    {
        let r = TypeTable { entries: Vec::new() };
        assert(r@ =~= Seq::<(Seq<char>, Seq<char>)>::empty());
        r
    }

    /// The number of entries.
    pub fn len(&self) -> (r: usize)
        ensures
            r == self@.len(),
    {
        self.entries.len()
    }

    /// The name and the JSON object of the `i`-th entry.
    pub fn entry(&self, i: usize) -> (r: (&str, &str))
        requires
            i < self@.len(),
        ensures
            r.0@ == self@[i as int].0,
            r.1@ == self@[i as int].1,
    {
        let e = &self.entries[i];
        (e.0.as_str(), e.1.as_str())
    }

    fn position(&self, k: &str) -> (r: Option<usize>)
        ensures
            match r {
                Some(i) => key_pos(self@, k@) == Some(i as int),
                None => key_pos(self@, k@) is None,
            },
    {
        proof {
            lemma_key_pos(self@, k@);
        }
        let mut i: usize = 0;
        while i < self.entries.len()
            invariant
                i <= self@.len(),
                self@.len() == self.entries@.len(),
                forall|j: int| 0 <= j < i ==> self@[j].0 != k@,
                match key_pos(self@, k@) {
                    Some(p) => 0 <= p < self@.len() && self@[p].0 == k@ && forall|j: int|
                        0 <= j < p ==> self@[j].0 != k@,
                    None => forall|j: int| 0 <= j < self@.len() ==> self@[j].0 != k@,
                },
            decreases self.entries@.len() - i,
        {
            assert(self@[i as int].0 == self.entries@[i as int].0@);
            if str_eq(self.entries[i].0.as_str(), k) {
                return Some(i);
            }
            i = i + 1;
        }
        None
    }

    /// Whether some entry is named `k`.
    pub fn contains_key(&self, k: &str) -> (r: bool)
        ensures
            r == (key_pos(self@, k@) is Some),
    {
        self.position(k).is_some()
    }

    /// Binds `k` to `v`, overwriting an entry of that name in place.
    pub fn insert(&mut self, k: String, v: String)
        ensures
            final(self)@ == entries_insert(old(self)@, k@, v@),
    {
        let ghost kv = k@;
        let ghost vv = v@;
        proof {
            lemma_key_pos(self@, k@);
            assert(self@.len() == self.entries@.len());
        }
        match self.position(k.as_str()) {
            Some(i) => {
                self.entries.set(i, (k, v));
                assert(self@ =~= old(self)@.update(i as int, (kv, vv)));
            },
            None => {
                self.entries.push((k, v));
                assert(self@ =~= old(self)@.push((kv, vv)));
            },
        }
    }
}

/// The table after describing `m` and, first, the tagged types nested in
/// its included fields; a name already in the table is left as it is.
pub open spec fn type_entries(m: TagMeta, es: Entries) -> Entries
    decreases tag_size(m), 0nat, 0nat,
{
    if key_pos(es, m.name@) is Some {
        es
    } else {
        let es1 = match m.kind {
            TagKind::Struct(fs) => fields_entries(fs@, es),
            TagKind::Enum(vs) => variants_entries(vs@, es),
        };
        entries_insert(es1, m.name@, type_json(m))
    }
}

/// The table after describing the nested types of the included fields.
pub open spec fn fields_entries(fs: Seq<FieldMeta>, es: Entries) -> Entries
    decreases fields_size(fs), 1nat, fs.len(),
{
    if fs.len() == 0 {
        es
    } else {
        let es1 = fields_entries(fs.drop_last(), es);
        let f = fs.last();
        if f.skip {
            es1
        } else {
            match f.structure {
                Some(s) => {
                    proof {
                        assert(field_size(f) == tag_size(*s));
                    }
                    type_entries(*s, es1)
                },
                None => es1,
            }
        }
    }
}

/// The table after describing the nested types of every variant.
pub open spec fn variants_entries(vs: Seq<EnumVariantMeta>, es: Entries) -> Entries
    decreases variants_size(vs), 2nat, vs.len(),
{
    if vs.len() == 0 {
        es
    } else {
        fields_entries(vs.last().fields@, variants_entries(vs.drop_last(), es))
    }
}

/// Adds to `types` the description of `meta` and of the types nested in
/// it, unless a type of that name is already described.
pub fn emit_type_to_map(meta: &TagMeta, types: &mut TypeTable)
    ensures
        final(types)@ == type_entries(*meta, old(types)@),
    decreases tag_size(*meta), 0nat, 0nat,
{
    if types.contains_key(meta.name.as_str()) {
        return;
    }
    match &meta.kind {
        TagKind::Struct(fs) => {
            assert(fields_size(fs@) < tag_size(*meta));
            emit_fields_types(fs, types);
        },
        TagKind::Enum(vs) => {
            assert(variants_size(vs@) < tag_size(*meta));
            emit_variants_types(vs, types);
        },
    }
    let j = type_json_text(meta);
    types.insert(crate::text::owned(meta.name.as_str()), j);
}

fn emit_fields_types(fs: &Vec<FieldMeta>, types: &mut TypeTable)
    ensures
        final(types)@ == fields_entries(fs@, old(types)@),
    decreases fields_size(fs@), 1nat, fs@.len(),
{
    let mut i: usize = 0;
    while i < fs.len()
        invariant
            i <= fs@.len(),
            types@ == fields_entries(fs@.subrange(0, i as int), old(types)@),
        decreases fs@.len() - i,
    {
        let f = &fs[i];
        proof {
            lemma_field_size_le(fs@, i as int);
            assert(fs@.subrange(0, i + 1).drop_last() =~= fs@.subrange(0, i as int));
            assert(fs@.subrange(0, i + 1).last() == *f);
        }
        if !f.skip {
            match &f.structure {
                Some(s) => {
                    assert(tag_size(**s) == field_size(*f));
                    emit_type_to_map(s, types);
                },
                None => {},
            }
        }
        i = i + 1;
    }
    assert(fs@.subrange(0, fs@.len() as int) =~= fs@);
}

fn emit_variants_types(vs: &Vec<EnumVariantMeta>, types: &mut TypeTable)
    ensures
        final(types)@ == variants_entries(vs@, old(types)@),
    decreases variants_size(vs@), 2nat, vs@.len(),
{
    let mut i: usize = 0;
    while i < vs.len()
        invariant
            i <= vs@.len(),
            types@ == variants_entries(vs@.subrange(0, i as int), old(types)@),
        decreases vs@.len() - i,
    {
        let v = &vs[i];
        proof {
            lemma_variant_size_le(vs@, i as int);
            assert(vs@.subrange(0, i + 1).drop_last() =~= vs@.subrange(0, i as int));
            assert(vs@.subrange(0, i + 1).last() == *v);
        }
        emit_fields_types(&v.fields, types);
        i = i + 1;
    }
    assert(vs@.subrange(0, vs@.len() as int) =~= vs@);
}

/// The table after describing the structures of `ps`, in order.
pub open spec fn params_types(ps: Seq<ParamMeta>, es: Entries) -> Entries
    decreases ps.len(),
{
    if ps.len() == 0 {
        es
    } else {
        let es1 = params_types(ps.drop_last(), es);
        match ps.last().structure {
            Some(s) => type_entries(*s, es1),
            None => es1,
        }
    }
}

/// The table after describing, handler after handler in depth-first
/// order, the structures of the parameters and of a non-unit return type.
pub open spec fn tree_types(hs: Seq<Handler>, es: Entries) -> Entries
    decreases hs,
{
    if hs.len() == 0 {
        es
    } else {
        let es1 = tree_types(hs.drop_last(), es);
        let h = hs.last();
        let es2 = params_types(h.meta.params@, es1);
        let es3 = if h.meta.return_type@ != "()"@ {
            match h.meta.return_structure {
                Some(s) => type_entries(*s, es2),
                None => es2,
            }
        } else {
            es2
        };
        tree_types(h.children@, es3)
    }
}

fn params_types_exec(ps: &Vec<ParamMeta>, types: &mut TypeTable)
    ensures
        final(types)@ == params_types(ps@, old(types)@),
{
    let mut i: usize = 0;
    while i < ps.len()
        invariant
            i <= ps@.len(),
            types@ == params_types(ps@.subrange(0, i as int), old(types)@),
        decreases ps@.len() - i,
    {
        proof {
            assert(ps@.subrange(0, i + 1).drop_last() =~= ps@.subrange(0, i as int));
        }
        match &ps[i].structure {
            Some(s) => emit_type_to_map(s, types),
            None => {},
        }
        i = i + 1;
    }
    assert(ps@.subrange(0, ps@.len() as int) =~= ps@);
}

/// Adds to `types` the descriptions of every tagged type the handlers of
/// the tree use as a parameter or (non-unit) return type.
pub fn collect_all_types(handlers: &Vec<Handler>, types: &mut TypeTable)
    ensures
        final(types)@ == tree_types(handlers@, old(types)@),
    decreases handlers,
{
    let mut i: usize = 0;
    while i < handlers.len()
        invariant
            i <= handlers@.len(),
            types@ == tree_types(handlers@.subrange(0, i as int), old(types)@),
        decreases handlers@.len() - i,
    {
        let h = &handlers[i];
        proof {
            assert(handlers@.subrange(0, i + 1).drop_last() =~= handlers@.subrange(0, i as int));
            assert(handlers@.subrange(0, i + 1).last() == *h);
        }
        params_types_exec(&h.meta.params, types);
        if !str_eq(h.meta.return_type.as_str(), "()") {
            match &h.meta.return_structure {
                Some(s) => emit_type_to_map(s, types),
                None => {},
            }
        }
        assert(decreases_to!(handlers => h.children));
        collect_all_types(&h.children, types);
        i = i + 1;
    }
    assert(handlers@.subrange(0, handlers@.len() as int) =~= handlers@);
}

/// The JSON object describing a handler parameter.
pub open spec fn param_json(p: ParamMeta) -> Seq<char> {
    "{"@ + json_key("name"@) + json_string(p.name@) + ","@ + json_key("extractor"@) + json_string(p.extractor@)
        + ","@ + json_key("ty"@) + json_string(p.ty@) + ","@ + json_key("tag"@) + json_string(
        match p.structure {
            Some(s) => s.desc@,
            None => Seq::empty(),
        },
    ) + ","@ + json_key("structure"@) + structure_ref(p.structure) + ","@ + json_key("primitive"@) + jbool(
        is_primitive_type(p.ty@),
    ) + "}"@
}

/// A string member followed by a comma.
pub open spec fn str_member(k: Seq<char>, v: Seq<char>) -> Seq<char> {
    json_key(k) + json_string(v) + ","@
}

/// A boolean member followed by a comma.
pub open spec fn bool_member(k: Seq<char>, b: bool) -> Seq<char> {
    json_key(k) + jbool(b) + ","@
}

/// The members of a node object that describe the node itself.
pub open spec fn node_head(h: Handler, prefix: Seq<Seq<char>>) -> Seq<char> {
    let display = if h.meta.api_name@.len() > 0 {
        h.meta.api_name@
    } else {
        h.name@
    };
    str_member("path"@, join_seq(prefix.push(h.name@), "."@)) + str_member(
        "apiPath"@,
        join_seq(prefix.push(display), "."@),
    ) + str_member("name"@, h.name@) + str_member("description"@, h.meta.desc@) + str_member(
        "apiName"@,
        h.meta.api_name@,
    )
}

/// The members of a node object that describe how it is called.
pub open spec fn node_call(h: Handler) -> Seq<char> {
    json_key("offset"@) + (if h.meta.name@.len() == 0 {
        dec_int(-1)
    } else {
        dec_int((h.offset as i64) as int)
    }) + ","@ + bool_member("longConnection"@, h.meta.long_connection) + bool_member(
        "isOrdinary"@,
        h.meta.is_ordinary,
    ) + str_member("method"@, h.meta.method@) + str_member("httpPath"@, h.path@) + bool_member(
        "isGroup"@,
        h.meta.name@.len() == 0,
    )
}

/// The members of a node object listing its parameters, its return type
/// and its children.
pub open spec fn node_tail(h: Handler, children: Seq<Seq<char>>) -> Seq<char> {
    json_key("params"@) + "["@ + join_seq(h.meta.params@.map_values(|p: ParamMeta| param_json(p)), ","@) + "]"@
        + ","@ + json_key("returnType"@) + json_string(h.meta.return_type@) + ","@ + json_key("returnStructure"@)
        + structure_ref(h.meta.return_structure) + ","@ + json_key("children"@) + "["@ + join_seq(children, ","@)
        + "]"@
}

/// The JSON object describing a node of the handler tree below `prefix`,
/// given the objects of its children.
pub open spec fn node_json(h: Handler, prefix: Seq<Seq<char>>, children: Seq<Seq<char>>) -> Seq<char> {
    "{"@ + node_head(h, prefix) + node_call(h) + node_tail(h, children) + "}"@
}

/// The objects describing the nodes `hs` below `prefix`, each with its
/// subtree.
pub open spec fn tree_json(hs: Seq<Handler>, prefix: Seq<Seq<char>>) -> Seq<Seq<char>>
    decreases hs,
{
    if hs.len() == 0 {
        Seq::empty()
    } else {
        let h = hs.last();
        tree_json(hs.drop_last(), prefix).push(node_json(h, prefix, tree_json(h.children@, prefix.push(h.name@))))
    }
}

fn param_json_text(p: &ParamMeta) -> (r: String)
    ensures
        r@ == param_json(*p),
{
    proof {
        lemma_punct();
    }
    let mut jb = JsonBuilder::new();
    jb.object_start();
    jb.key("name");
    jb.string(p.name.as_str());
    jb.comma();
    jb.key("extractor");
    jb.string(p.extractor.as_str());
    jb.comma();
    jb.key("ty");
    jb.string(p.ty.as_str());
    jb.comma();
    jb.key("tag");
    match &p.structure {
        Some(s) => jb.string(s.desc.as_str()),
        None => jb.string(""),
    }
    jb.comma();
    jb.key("structure");
    structure_ref_text(&mut jb, &p.structure);
    jb.comma();
    jb.key("primitive");
    jb.bool(is_primitive(p.ty.as_str()));
    jb.object_end();
    assert(jb@ =~= param_json(*p));
    json_text(jb)
}

fn params_json_text(ps: &Vec<ParamMeta>) -> (r: Vec<String>)
    ensures
        views(r@) == ps@.map_values(|p: ParamMeta| param_json(p)),
{
    let mut r: Vec<String> = Vec::new();
    let mut i: usize = 0;
    while i < ps.len()
        invariant
            i <= ps@.len(),
            views(r@) == ps@.subrange(0, i as int).map_values(|p: ParamMeta| param_json(p)),
        decreases ps@.len() - i,
    {
        let ghost before = r@;
        r.push(param_json_text(&ps[i]));
        proof {
            assert(ps@.subrange(0, i + 1) =~= ps@.subrange(0, i as int).push(ps@[i as int]));
            assert(views(r@) =~= views(before).push(param_json(ps@[i as int])));
        }
        i = i + 1;
    }
    assert(ps@.subrange(0, ps@.len() as int) =~= ps@);
    r
}

fn str_member_text(jb: &mut JsonBuilder, k: &str, v: &str)
    ensures
        final(jb)@ == old(jb)@ + str_member(k@, v@),
{
    proof {
        lemma_punct();
    }
    let ghost start = jb@;
    jb.key(k);
    jb.string(v);
    jb.comma();
    assert(jb@ =~= start + str_member(k@, v@));
}

fn bool_member_text(jb: &mut JsonBuilder, k: &str, b: bool)
    ensures
        final(jb)@ == old(jb)@ + bool_member(k@, b),
{
    proof {
        lemma_punct();
    }
    let ghost start = jb@;
    jb.key(k);
    jb.bool(b);
    jb.comma();
    assert(jb@ =~= start + bool_member(k@, b));
}

fn node_head_text(jb: &mut JsonBuilder, h: &Handler, prefix: &Vec<String>)
    ensures
        final(jb)@ == old(jb)@ + node_head(*h, views(prefix@)),
{
    proof {
        lemma_punct();
    }
    let ghost start = jb@;
    let mut full: Vec<String> = prefix.clone();
    let ghost f0 = full@;
    full.push(owned(h.name.as_str()));
    assert(views(full@) =~= views(prefix@).push(h.name@)) by {
        assert(views(f0) =~= views(prefix@));
    }
    let display = if h.meta.api_name.unicode_len() > 0 {
        h.meta.api_name.as_str()
    } else {
        h.name.as_str()
    };
    let mut api: Vec<String> = prefix.clone();
    let ghost a0 = api@;
    api.push(owned(display));
    assert(views(api@) =~= views(prefix@).push(display@)) by {
        assert(views(a0) =~= views(prefix@));
    }
    let fp = join(&full, ".");
    let ap = join(&api, ".");
    str_member_text(jb, "path", fp.as_str());
    str_member_text(jb, "apiPath", ap.as_str());
    str_member_text(jb, "name", h.name.as_str());
    str_member_text(jb, "description", h.meta.desc.as_str());
    str_member_text(jb, "apiName", h.meta.api_name.as_str());
    assert(jb@ =~= start + node_head(*h, views(prefix@)));
}

fn node_call_text(jb: &mut JsonBuilder, h: &Handler)
    ensures
        final(jb)@ == old(jb)@ + node_call(*h),
{
    proof {
        lemma_punct();
    }
    let ghost start = jb@;
    jb.key("offset");
    if h.meta.name.unicode_len() == 0 {
        jb.number(-1);
    } else {
        jb.number(h.offset as i64);
    }
    jb.comma();
    bool_member_text(jb, "longConnection", h.meta.long_connection);
    bool_member_text(jb, "isOrdinary", h.meta.is_ordinary);
    str_member_text(jb, "method", h.meta.method.as_str());
    str_member_text(jb, "httpPath", h.path.as_str());
    bool_member_text(jb, "isGroup", h.meta.name.unicode_len() == 0);
    assert(jb@ =~= start + node_call(*h));
}

#[verifier::rlimit(30)]
fn node_tail_text(jb: &mut JsonBuilder, h: &Handler, children: &Vec<String>)
    ensures
        final(jb)@ == old(jb)@ + node_tail(*h, views(children@)),
{
    proof {
        lemma_punct();
    }
    let ghost start = jb@;
    jb.key("params");
    jb.array_start();
    let ps = params_json_text(&h.meta.params);
    let pj = join(&ps, ",");
    jb.raw(pj.as_str());
    jb.array_end();
    jb.comma();
    jb.key("returnType");
    jb.string(h.meta.return_type.as_str());
    jb.comma();
    jb.key("returnStructure");
    structure_ref_text(jb, &h.meta.return_structure);
    jb.comma();
    jb.key("children");
    jb.array_start();
    let cj = join(children, ",");
    jb.raw(cj.as_str());
    jb.array_end();
    assert(jb@ =~= start + node_tail(*h, views(children@)));
}

/// Returns the JSON objects describing the nodes `handlers` below the
/// path `path_prefix`, each with its whole subtree.
pub fn build_handler_tree(handlers: &Vec<Handler>, path_prefix: &Vec<String>) -> (r: Vec<String>)
    ensures
        views(r@) == tree_json(handlers@, views(path_prefix@)),
    decreases handlers,
{
    let mut result: Vec<String> = Vec::new();
    let mut i: usize = 0;
    while i < handlers.len()
        invariant
            i <= handlers@.len(),
            views(result@) == tree_json(handlers@.subrange(0, i as int), views(path_prefix@)),
        decreases handlers@.len() - i,
    {
        let h = &handlers[i];
        proof {
            lemma_punct();
            assert(handlers@.subrange(0, i + 1).drop_last() =~= handlers@.subrange(0, i as int));
            assert(handlers@.subrange(0, i + 1).last() == *h);
        }
        let mut full: Vec<String> = path_prefix.clone();
        let ghost f0 = full@;
        full.push(owned(h.name.as_str()));
        assert(views(full@) =~= views(path_prefix@).push(h.name@)) by {
            assert(views(f0) =~= views(path_prefix@));
        }
        assert(decreases_to!(handlers => h.children));
        let children = build_handler_tree(&h.children, &full);
        let mut jb = JsonBuilder::new();
        jb.object_start();
        node_head_text(&mut jb, h, path_prefix);
        node_call_text(&mut jb, h);
        node_tail_text(&mut jb, h, &children);
        jb.object_end();
        assert(jb@ =~= node_json(*h, views(path_prefix@), views(children@)));
        let ghost before = result@;
        result.push(json_text(jb));
        assert(views(result@) =~= views(before).push(
            node_json(*h, views(path_prefix@), tree_json(h.children@, views(path_prefix@).push(h.name@))),
        ));
        i = i + 1;
    }
    assert(handlers@.subrange(0, handlers@.len() as int) =~= handlers@);
    result
}

/// A Custom or Header type offered to the page's user: its name and its
/// documentation.
pub struct CustomInfo {
    /// The Rust type name.
    pub ty: String,
    /// The type's documentation; empty when it has no structure.
    pub desc: String,
}

/// The names and documentations of a list of infos.
pub open spec fn infos_view(v: Seq<CustomInfo>) -> Entries {
    v.map_values(|c: CustomInfo| (c.ty@, c.desc@))
}

/// Some info is about type `ty`.
pub open spec fn has_ty(acc: Entries, ty: Seq<char>) -> bool {
    exists|i: int| 0 <= i < acc.len() && acc[i].0 == ty
}

/// The documentation of a parameter's structure, or nothing.
pub open spec fn param_desc(p: ParamMeta) -> Seq<char> {
    match p.structure {
        Some(s) => s.desc@,
        None => Seq::empty(),
    }
}

/// A Header parameter names a header that clients do not set on their own:
/// a struct with some field whose header name is not standard, or any
/// other kind of value.
pub open spec fn has_non_standard(p: ParamMeta) -> bool {
    match p.structure {
        Some(s) => match s.kind {
            TagKind::Struct(fs) => exists|j: int|
                0 <= j < fs@.len() && !standard_header(header_name_of(#[trigger] fs@[j].name@)),
            TagKind::Enum(_) => true,
        },
        None => true,
    }
}

/// The infos after the parameters `ps` with extractor `e`: each type not
/// yet listed is added, a Header type only when it names a non-standard
/// header.
pub open spec fn params_infos(ps: Seq<ParamMeta>, e: Seq<char>, acc: Entries) -> Entries
    decreases ps.len(),
{
    if ps.len() == 0 {
        acc
    } else {
        let acc1 = params_infos(ps.drop_last(), e, acc);
        let p = ps.last();
        if p.extractor@ == e && !has_ty(acc1, p.ty@) && (e != "Header"@ || has_non_standard(p)) {
            acc1.push((p.ty@, param_desc(p)))
        } else {
            acc1
        }
    }
}

/// The infos after the handlers of a tree, depth first.
pub open spec fn tree_infos(hs: Seq<Handler>, e: Seq<char>, acc: Entries) -> Entries
    decreases hs,
{
    if hs.len() == 0 {
        acc
    } else {
        let acc1 = tree_infos(hs.drop_last(), e, acc);
        let h = hs.last();
        tree_infos(h.children@, e, params_infos(h.meta.params@, e, acc1))
    }
}

/// The infos after the top-level ordinary routes.
pub open spec fn routes_infos(rs: Seq<OrdinaryRoute>, e: Seq<char>, acc: Entries) -> Entries
    decreases rs.len(),
{
    if rs.len() == 0 {
        acc
    } else {
        params_infos(rs.last().meta.params@, e, routes_infos(rs.drop_last(), e, acc))
    }
}

fn has_ty_exec(acc: &Vec<CustomInfo>, ty: &str) -> (r: bool)
    ensures
        r == has_ty(infos_view(acc@), ty@),
{
    let mut i: usize = 0;
    while i < acc.len()
        invariant
            i <= acc@.len(),
            forall|j: int| 0 <= j < i ==> acc@[j].ty@ != ty@,
        decreases acc@.len() - i,
    {
        if str_eq(acc[i].ty.as_str(), ty) {
            assert(infos_view(acc@)[i as int].0 == ty@);
            return true;
        }
        i = i + 1;
    }
    assert forall|j: int| 0 <= j < infos_view(acc@).len() implies infos_view(acc@)[j].0 != ty@ by {
        assert(infos_view(acc@)[j].0 == acc@[j].ty@);
    }
    false
}

fn has_non_standard_exec(p: &ParamMeta) -> (r: bool)
    ensures
        r == has_non_standard(*p),
{
    match &p.structure {
        Some(s) => match &s.kind {
            TagKind::Struct(fs) => {
                let mut i: usize = 0;
                while i < fs.len()
                    invariant
                        p.structure == Some(*s),
                        s.kind == TagKind::Struct(*fs),
                        i <= fs@.len(),
                        forall|j: int| 0 <= j < i ==> standard_header(header_name_of(#[trigger] fs@[j].name@)),
                    decreases fs@.len() - i,
                {
                    let hn = to_header_name(fs[i].name.as_str());
                    if !is_standard_header(hn.as_str()) {
                        assert(!standard_header(header_name_of(fs@[i as int].name@)));
                        return true;
                    }
                    i = i + 1;
                }
                false
            },
            TagKind::Enum(_) => true,
        },
        None => true,
    }
}

fn is_header(e: &str) -> (r: bool)
    ensures
        r == (e@ == "Header"@),
{
    str_eq(e, "Header")
}

fn params_infos_exec(ps: &Vec<ParamMeta>, e: &str, acc: &mut Vec<CustomInfo>)
    ensures
        infos_view(final(acc)@) == params_infos(ps@, e@, infos_view(old(acc)@)),
{
    let mut i: usize = 0;
    while i < ps.len()
        invariant
            i <= ps@.len(),
            infos_view(acc@) == params_infos(ps@.subrange(0, i as int), e@, infos_view(old(acc)@)),
        decreases ps@.len() - i,
    {
        let p = &ps[i];
        proof {
            assert(ps@.subrange(0, i + 1).drop_last() =~= ps@.subrange(0, i as int));
            assert(ps@.subrange(0, i + 1).last() == *p);
        }
        if str_eq(p.extractor.as_str(), e) && !has_ty_exec(acc, p.ty.as_str()) && (!is_header(e)
            || has_non_standard_exec(p)) {
            let desc = match &p.structure {
                Some(s) => owned(s.desc.as_str()),
                None => String::new(),
            };
            let ghost before = acc@;
            acc.push(CustomInfo { ty: owned(p.ty.as_str()), desc });
            assert(infos_view(acc@) =~= infos_view(before).push((p.ty@, param_desc(*p))));
        }
        i = i + 1;
    }
    assert(ps@.subrange(0, ps@.len() as int) =~= ps@);
}

fn tree_infos_exec(handlers: &Vec<Handler>, e: &str, acc: &mut Vec<CustomInfo>)
    ensures
        infos_view(final(acc)@) == tree_infos(handlers@, e@, infos_view(old(acc)@)),
    decreases handlers,
{
    let mut i: usize = 0;
    while i < handlers.len()
        invariant
            i <= handlers@.len(),
            infos_view(acc@) == tree_infos(handlers@.subrange(0, i as int), e@, infos_view(old(acc)@)),
        decreases handlers@.len() - i,
    {
        let h = &handlers[i];
        proof {
            assert(handlers@.subrange(0, i + 1).drop_last() =~= handlers@.subrange(0, i as int));
            assert(handlers@.subrange(0, i + 1).last() == *h);
        }
        params_infos_exec(&h.meta.params, e, acc);
        assert(decreases_to!(handlers => h.children));
        tree_infos_exec(&h.children, e, acc);
        i = i + 1;
    }
    assert(handlers@.subrange(0, handlers@.len() as int) =~= handlers@);
}

/// Adds to `customs`, depth first, each Custom parameter type of the tree
/// not yet listed, with its documentation.
pub fn collect_customs_recursive(handlers: &Vec<Handler>, customs: &mut Vec<CustomInfo>)
    ensures
        infos_view(final(customs)@) == tree_infos(handlers@, "Custom"@, infos_view(old(customs)@)),
{
    tree_infos_exec(handlers, "Custom", customs);
}

/// The distinct Custom parameter types of the tree, with their
/// documentation, in first-use order.
pub fn collect_all_customs(handlers: &Vec<Handler>) -> (r: Vec<CustomInfo>)
    ensures
        infos_view(r@) == tree_infos(handlers@, "Custom"@, Seq::empty()),
{
    let mut customs: Vec<CustomInfo> = Vec::new();
    assert(infos_view(customs@) =~= Seq::<(Seq<char>, Seq<char>)>::empty());
    collect_customs_recursive(handlers, &mut customs);
    customs
}

/// Adds to `headers`, depth first, each Header parameter type of the tree
/// not yet listed that names a header clients do not set themselves.
pub fn collect_headers_recursive(handlers: &Vec<Handler>, headers: &mut Vec<CustomInfo>)
    ensures
        infos_view(final(headers)@) == tree_infos(handlers@, "Header"@, infos_view(old(headers)@)),
{
    tree_infos_exec(handlers, "Header", headers);
}

/// The distinct Header parameter types of the tree that name a header
/// clients do not set themselves, with their documentation.
pub fn collect_all_headers(handlers: &Vec<Handler>) -> (r: Vec<CustomInfo>)
    ensures
        infos_view(r@) == tree_infos(handlers@, "Header"@, Seq::empty()),
{
    let mut headers: Vec<CustomInfo> = Vec::new();
    assert(infos_view(headers@) =~= Seq::<(Seq<char>, Seq<char>)>::empty());
    collect_headers_recursive(handlers, &mut headers);
    headers
}

/// The objects of a list of infos.
pub open spec fn info_items(infos: Entries) -> Seq<Seq<char>> {
    infos.map_values(
        |c: (Seq<char>, Seq<char>)|
            "{"@ + json_key("typeName"@) + json_string(c.0) + ","@ + json_key("description"@) + json_string(c.1)
                + "}"@,
    )
}

/// The members of the `types` object: each type name, as is, with its
/// description.
pub open spec fn type_items(es: Entries) -> Seq<Seq<char>> {
    es.map_values(|e: (Seq<char>, Seq<char>)| json_key(e.0) + e.1)
}

/// The Header infos of a service: those of its handler tree, then those
/// of its top-level ordinary routes.
pub open spec fn service_headers(svc: Service) -> Entries {
    routes_infos(svc.ordinary_routes@, "Header"@, tree_infos(svc.handlers@, "Header"@, Seq::empty()))
}

/// The schema of a service: its name and description, its Custom and
/// Header types, the descriptions of its tagged types and its handler
/// tree.
pub open spec fn schema_json(svc: Service) -> Seq<char> {
    let hs = svc.handlers@;
    "{"@ + str_member("serviceName"@, svc.name@) + str_member("serviceDesc"@, svc.desc@) + json_key("customs"@)
        + "["@ + join_seq(info_items(tree_infos(hs, "Custom"@, Seq::empty())), ","@) + "]"@ + ","@ + json_key(
        "headers"@,
    ) + "["@ + join_seq(info_items(service_headers(svc)), ","@) + "]"@ + ","@ + json_key("types"@) + "{"@
        + join_seq(type_items(tree_types(hs, Seq::empty())), ","@) + "}"@ + ","@ + json_key("handlers"@) + "["@
        + join_seq(tree_json(hs, Seq::empty()), ","@) + "]"@ + "}"@
}

fn info_items_text(infos: &Vec<CustomInfo>) -> (r: Vec<String>)
    ensures
        views(r@) == info_items(infos_view(infos@)),
{
    let mut r: Vec<String> = Vec::new();
    let mut i: usize = 0;
    while i < infos.len()
        invariant
            i <= infos@.len(),
            views(r@) == info_items(infos_view(infos@.subrange(0, i as int))),
        decreases infos@.len() - i,
    {
        proof {
            lemma_punct();
        }
        let c = &infos[i];
        let mut jb = JsonBuilder::new();
        jb.object_start();
        jb.key("typeName");
        jb.string(c.ty.as_str());
        jb.comma();
        jb.key("description");
        jb.string(c.desc.as_str());
        jb.object_end();
        assert(jb@ =~= "{"@ + json_key("typeName"@) + json_string(c.ty@) + ","@ + json_key("description"@)
            + json_string(c.desc@) + "}"@);
        let ghost before = r@;
        r.push(json_text(jb));
        proof {
            assert(infos_view(infos@.subrange(0, i + 1)) =~= infos_view(infos@.subrange(0, i as int)).push(
                (c.ty@, c.desc@),
            ));
            assert(views(r@) =~= views(before).push(
                "{"@ + json_key("typeName"@) + json_string(c.ty@) + ","@ + json_key("description"@) + json_string(
                    c.desc@,
                ) + "}"@,
            ));
        }
        i = i + 1;
    }
    assert(infos@.subrange(0, infos@.len() as int) =~= infos@);
    r
}

fn type_items_text(types: &TypeTable) -> (r: Vec<String>)
    ensures
        views(r@) == type_items(types@),
{
    let mut r: Vec<String> = Vec::new();
    let mut i: usize = 0;
    while i < types.len()
        invariant
            i <= types@.len(),
            views(r@) == type_items(types@.subrange(0, i as int)),
        decreases types@.len() - i,
    {
        let (name, entry) = types.entry(i);
        let mut jb = JsonBuilder::new();
        jb.key(name);
        jb.raw(entry);
        let ghost before = r@;
        r.push(json_text(jb));
        proof {
            assert(types@.subrange(0, i + 1) =~= types@.subrange(0, i as int).push(types@[i as int]));
            assert(views(r@) =~= views(before).push(json_key(name@) + entry@));
        }
        i = i + 1;
    }
    assert(types@.subrange(0, types@.len() as int) =~= types@);
    r
}

fn routes_infos_exec(routes: &Vec<OrdinaryRoute>, e: &str, acc: &mut Vec<CustomInfo>)
    ensures
        infos_view(final(acc)@) == routes_infos(routes@, e@, infos_view(old(acc)@)),
{
    let mut i: usize = 0;
    while i < routes.len()
        invariant
            i <= routes@.len(),
            infos_view(acc@) == routes_infos(routes@.subrange(0, i as int), e@, infos_view(old(acc)@)),
        decreases routes@.len() - i,
    {
        proof {
            assert(routes@.subrange(0, i + 1).drop_last() =~= routes@.subrange(0, i as int));
        }
        params_infos_exec(&routes[i].meta.params, e, acc);
        i = i + 1;
    }
    assert(routes@.subrange(0, routes@.len() as int) =~= routes@);
}

fn array_text(jb: &mut JsonBuilder, items: &Vec<String>)
    ensures
        final(jb)@ == old(jb)@ + "["@ + join_seq(views(items@), ","@) + "]"@,
{
    proof {
        lemma_punct();
    }
    let ghost start = jb@;
    jb.array_start();
    let j = join(items, ",");
    jb.raw(j.as_str());
    jb.array_end();
    assert(jb@ =~= start + "["@ + join_seq(views(items@), ","@) + "]"@);
}

/// Returns the JSON schema of a service that its documentation page
/// renders.
pub fn build_schema(svc: &Service) -> (r: String)
    ensures
        r@ == schema_json(*svc),
{
    proof {
        lemma_punct();
    }
    let customs = collect_all_customs(&svc.handlers);
    let mut headers = collect_all_headers(&svc.handlers);
    routes_infos_exec(&svc.ordinary_routes, "Header", &mut headers);
    let mut types_map = TypeTable::new();
    collect_all_types(&svc.handlers, &mut types_map);
    let empty: Vec<String> = Vec::new();
    assert(views(empty@) =~= Seq::<Seq<char>>::empty());
    let handler_tree = build_handler_tree(&svc.handlers, &empty);
    let mut jb = JsonBuilder::new();
    jb.object_start();
    str_member_text(&mut jb, "serviceName", svc.name.as_str());
    str_member_text(&mut jb, "serviceDesc", svc.desc.as_str());
    let ghost m1 = jb@;
    jb.key("customs");
    array_text(&mut jb, &info_items_text(&customs));
    jb.comma();
    jb.key("headers");
    array_text(&mut jb, &info_items_text(&headers));
    jb.comma();
    let ghost m2 = jb@;
    jb.key("types");
    jb.object_start();
    let ti = type_items_text(&types_map);
    let tj = join(&ti, ",");
    jb.raw(tj.as_str());
    jb.object_end();
    jb.comma();
    jb.key("handlers");
    array_text(&mut jb, &handler_tree);
    jb.object_end();
    assert(jb@ =~= schema_json(*svc));
    json_text(jb)
}


proof fn lemma_type_entries_unique(m: TagMeta, es: Entries)
    requires
        unique_keys(es),
    ensures
        unique_keys(type_entries(m, es)),
    decreases tag_size(m), 0nat, 0nat,
{
    if key_pos(es, m.name@) is None {
        match m.kind {
            TagKind::Struct(fs) => {
                assert(fields_size(fs@) < tag_size(m));
                lemma_fields_entries_unique(fs@, es);
                lemma_insert_unique(fields_entries(fs@, es), m.name@, type_json(m));
            },
            TagKind::Enum(vs) => {
                assert(variants_size(vs@) < tag_size(m));
                lemma_variants_entries_unique(vs@, es);
                lemma_insert_unique(variants_entries(vs@, es), m.name@, type_json(m));
            },
        }
    }
}

proof fn lemma_fields_entries_unique(fs: Seq<FieldMeta>, es: Entries)
    requires
        unique_keys(es),
    ensures
        unique_keys(fields_entries(fs, es)),
    decreases fields_size(fs), 1nat, fs.len(),
{
    if fs.len() > 0 {
        lemma_fields_entries_unique(fs.drop_last(), es);
        let f = fs.last();
        if !f.skip {
            match f.structure {
                Some(s) => {
                    assert(field_size(f) == tag_size(*s));
                    lemma_type_entries_unique(*s, fields_entries(fs.drop_last(), es));
                },
                None => {},
            }
        }
    }
}

proof fn lemma_variants_entries_unique(vs: Seq<EnumVariantMeta>, es: Entries)
    requires
        unique_keys(es),
    ensures
        unique_keys(variants_entries(vs, es)),
    decreases variants_size(vs), 2nat, vs.len(),
{
    if vs.len() > 0 {
        lemma_variants_entries_unique(vs.drop_last(), es);
        lemma_fields_entries_unique(vs.last().fields@, variants_entries(vs.drop_last(), es));
    }
}

proof fn lemma_params_types_unique(ps: Seq<ParamMeta>, es: Entries)
    requires
        unique_keys(es),
    ensures
        unique_keys(params_types(ps, es)),
    decreases ps.len(),
{
    if ps.len() > 0 {
        lemma_params_types_unique(ps.drop_last(), es);
        match ps.last().structure {
            Some(s) => lemma_type_entries_unique(*s, params_types(ps.drop_last(), es)),
            None => {},
        }
    }
}

/// The table of type descriptions collected from a handler tree never
/// holds a type name twice, whatever it started with, as long as that
/// held no name twice.
pub proof fn law_type_table_names_unique(hs: Seq<Handler>, es: Entries)
    requires
        unique_keys(es),
    ensures
        unique_keys(tree_types(hs, es)),
    decreases hs,
{
    if hs.len() > 0 {
        law_type_table_names_unique(hs.drop_last(), es);
        let h = hs.last();
        let es1 = tree_types(hs.drop_last(), es);
        lemma_params_types_unique(h.meta.params@, es1);
        let es2 = params_types(h.meta.params@, es1);
        if h.meta.return_type@ != "()"@ {
            match h.meta.return_structure {
                Some(s) => lemma_type_entries_unique(*s, es2),
                None => {},
            }
        }
        let es3 = if h.meta.return_type@ != "()"@ {
            match h.meta.return_structure {
                Some(s) => type_entries(*s, es2),
                None => es2,
            }
        } else {
            es2
        };
        law_type_table_names_unique(h.children@, es3);
    }
}

/// The type table of a schema starts empty, so its names are unique.
pub proof fn law_schema_types_unique(svc: Service)
    ensures
        unique_keys(tree_types(svc.handlers@, Seq::empty())),
{
    law_type_table_names_unique(svc.handlers@, Seq::empty());
}

proof fn lemma_insert_grows(es0: Entries, es: Entries, k: Seq<char>, v: Seq<char>)
    requires
        es0.is_prefix_of(es),
        key_pos(es0, k) is None,
    ensures
        es0.is_prefix_of(entries_insert(es, k, v)),
        key_pos(entries_insert(es, k, v), k) is Some,
{
    lemma_key_pos(es0, k);
    lemma_key_pos(es, k);
    let r = entries_insert(es, k, v);
    lemma_key_pos(r, k);
    match key_pos(es, k) {
        Some(i) => {
            if i < es0.len() {
                assert(es0[i] == es.subrange(0, es0.len() as int)[i]);
            }
            assert(r[i].0 == k);
            assert(r.subrange(0, es0.len() as int) =~= es0) by {
                assert forall|j: int| 0 <= j < es0.len() implies r.subrange(0, es0.len() as int)[j]
                    == es0[j] by {
                    assert(es.subrange(0, es0.len() as int)[j] == es0[j]);
                }
            }
        },
        None => {
            assert(r[es.len() as int].0 == k);
            assert(r.subrange(0, es0.len() as int) =~= es0) by {
                assert forall|j: int| 0 <= j < es0.len() implies r.subrange(0, es0.len() as int)[j]
                    == es0[j] by {
                    assert(es.subrange(0, es0.len() as int)[j] == es0[j]);
                }
            }
        },
    }
}

proof fn lemma_prefix_trans(a: Entries, b: Entries, c: Entries)
    requires
        a.is_prefix_of(b),
        b.is_prefix_of(c),
    ensures
        a.is_prefix_of(c),
{
    assert(c.subrange(0, a.len() as int) =~= a) by {
        assert forall|j: int| 0 <= j < a.len() implies c.subrange(0, a.len() as int)[j] == a[j] by {
            assert(c.subrange(0, b.len() as int)[j] == b[j]);
            assert(b.subrange(0, a.len() as int)[j] == a[j]);
        }
    }
}

proof fn lemma_prefix_refl(a: Entries)
    ensures
        a.is_prefix_of(a),
{
    assert(a.subrange(0, a.len() as int) =~= a);
}

proof fn lemma_type_entries_grow(m: TagMeta, es: Entries)
    ensures
        es.is_prefix_of(type_entries(m, es)),
        key_pos(type_entries(m, es), m.name@) is Some,
    decreases tag_size(m), 0nat, 0nat,
{
    if key_pos(es, m.name@) is Some {
        lemma_prefix_refl(es);
    } else {
        let es1 = match m.kind {
            TagKind::Struct(fs) => fields_entries(fs@, es),
            TagKind::Enum(vs) => variants_entries(vs@, es),
        };
        match m.kind {
            TagKind::Struct(fs) => lemma_fields_entries_grow(fs@, es),
            TagKind::Enum(vs) => lemma_variants_entries_grow(vs@, es),
        }
        lemma_insert_grows(es, es1, m.name@, type_json(m));
    }
}

proof fn lemma_fields_entries_grow(fs: Seq<FieldMeta>, es: Entries)
    ensures
        es.is_prefix_of(fields_entries(fs, es)),
    decreases fields_size(fs), 1nat, fs.len(),
{
    if fs.len() == 0 {
        lemma_prefix_refl(es);
    } else {
        let es1 = fields_entries(fs.drop_last(), es);
        lemma_fields_entries_grow(fs.drop_last(), es);
        let f = fs.last();
        if !f.skip && f.structure is Some {
            let s = f.structure->0;
            assert(field_size(f) == tag_size(*s));
            lemma_type_entries_grow(*s, es1);
            lemma_prefix_trans(es, es1, type_entries(*s, es1));
        }
    }
}

proof fn lemma_variants_entries_grow(vs: Seq<EnumVariantMeta>, es: Entries)
    ensures
        es.is_prefix_of(variants_entries(vs, es)),
    decreases variants_size(vs), 2nat, vs.len(),
{
    if vs.len() == 0 {
        lemma_prefix_refl(es);
    } else {
        let es1 = variants_entries(vs.drop_last(), es);
        lemma_variants_entries_grow(vs.drop_last(), es);
        lemma_fields_entries_grow(vs.last().fields@, es1);
        lemma_prefix_trans(es, es1, variants_entries(vs, es));
    }
}

/// Describing a type only adds to the table: the entries already there
/// stay as they are, in place; afterwards the type's name is in the table,
/// so describing the same type again changes nothing.
pub proof fn law_type_description_settles(m: TagMeta, es: Entries)
    ensures
        es.is_prefix_of(type_entries(m, es)),
        key_pos(type_entries(m, es), m.name@) is Some,
        type_entries(m, type_entries(m, es)) == type_entries(m, es),
{
    lemma_type_entries_grow(m, es);
}

/// Every entry of `r` past the first `es.len()` describes one of the types
/// `ts`: it is that type's name and description.
pub open spec fn new_entries_describe(es: Entries, r: Entries, ts: Seq<TagMeta>) -> bool {
    forall|j: int| es.len() <= j < r.len() ==> describes_one_of(ts, #[trigger] r[j])
}

/// The entry `e` is the name and the description of one of the types `ts`.
pub open spec fn describes_one_of(ts: Seq<TagMeta>, e: (Seq<char>, Seq<char>)) -> bool {
    exists|t: TagMeta| #[trigger] ts.contains(t) && e == (t.name@, type_json(t))
}

proof fn lemma_describe_widen(es: Entries, r: Entries, ts: Seq<TagMeta>, us: Seq<TagMeta>)
    requires
        new_entries_describe(es, r, ts),
        forall|t: TagMeta| ts.contains(t) ==> us.contains(t),
    ensures
        new_entries_describe(es, r, us),
{
    assert forall|j: int| es.len() <= j < r.len() implies describes_one_of(us, #[trigger] r[j]) by {
        let t = choose|t: TagMeta| #[trigger] ts.contains(t) && r[j] == (t.name@, type_json(t));
        assert(us.contains(t));
    }
}

proof fn lemma_contains_concat(a: Seq<TagMeta>, b: Seq<TagMeta>)
    ensures
        forall|t: TagMeta| a.contains(t) ==> (a + b).contains(t),
        forall|t: TagMeta| b.contains(t) ==> (a + b).contains(t),
{
    assert forall|t: TagMeta| a.contains(t) implies (a + b).contains(t) by {
        let i = choose|i: int| 0 <= i < a.len() && a[i] == t;
        assert((a + b)[i] == t);
    }
    assert forall|t: TagMeta| b.contains(t) implies (a + b).contains(t) by {
        let i = choose|i: int| 0 <= i < b.len() && b[i] == t;
        assert((a + b)[a.len() + i] == t);
    }
}

proof fn lemma_describe_chain(a: Entries, b: Entries, c: Entries, ts: Seq<TagMeta>, us: Seq<TagMeta>)
    requires
        a.is_prefix_of(b),
        b.is_prefix_of(c),
        new_entries_describe(a, b, ts),
        new_entries_describe(b, c, us),
    ensures
        new_entries_describe(a, c, ts + us),
{
    lemma_contains_concat(ts, us);
    assert forall|j: int| a.len() <= j < c.len() implies describes_one_of(ts + us, #[trigger] c[j]) by {
        lemma_describe_step(a, b, c, ts, us, j);
    }
}

proof fn lemma_describe_step(a: Entries, b: Entries, c: Entries, ts: Seq<TagMeta>, us: Seq<TagMeta>, j: int)
    requires
        b.is_prefix_of(c),
        new_entries_describe(a, b, ts),
        new_entries_describe(b, c, us),
        a.len() <= j < c.len(),
        forall|t: TagMeta| ts.contains(t) ==> (ts + us).contains(t),
        forall|t: TagMeta| us.contains(t) ==> (ts + us).contains(t),
    ensures
        describes_one_of(ts + us, c[j]),
{
    if j < b.len() {
        assert(c[j] == c.subrange(0, b.len() as int)[j]);
        assert(describes_one_of(ts, b[j]));
        let t = choose|t: TagMeta| #[trigger] ts.contains(t) && b[j] == (t.name@, type_json(t));
        assert((ts + us).contains(t));
    } else {
        assert(describes_one_of(us, c[j]));
        let t = choose|t: TagMeta| #[trigger] us.contains(t) && c[j] == (t.name@, type_json(t));
        assert((ts + us).contains(t));
    }
}

proof fn lemma_type_entries_describe(m: TagMeta, es: Entries)
    ensures
        new_entries_describe(es, type_entries(m, es), reach_tags(m)),
    decreases tag_size(m), 0nat, 0nat,
{
    if key_pos(es, m.name@) is None {
        let tail = match m.kind {
            TagKind::Struct(fs) => reach_tags_fields(fs@),
            TagKind::Enum(vs) => reach_tags_variants(vs@),
        };
        let es1 = match m.kind {
            TagKind::Struct(fs) => fields_entries(fs@, es),
            TagKind::Enum(vs) => variants_entries(vs@, es),
        };
        match m.kind {
            TagKind::Struct(fs) => {
                lemma_fields_entries_describe(fs@, es);
                lemma_fields_entries_grow(fs@, es);
            },
            TagKind::Enum(vs) => {
                lemma_variants_entries_describe(vs@, es);
                lemma_variants_entries_grow(vs@, es);
            },
        }
        let rt = reach_tags(m);
        assert(rt == seq![m] + tail);
        lemma_contains_concat(seq![m], tail);
        assert(seq![m].contains(m)) by {
            assert(seq![m][0] == m);
        }
        lemma_describe_widen(es, es1, tail, rt);
        let r = type_entries(m, es);
        lemma_key_pos(es, m.name@);
        lemma_key_pos(es1, m.name@);
        assert forall|j: int| es.len() <= j < r.len() implies describes_one_of(rt, #[trigger] r[j]) by {
            match key_pos(es1, m.name@) {
                Some(i) => {
                    if j == i {
                        assert(r[j] == (m.name@, type_json(m)));
                        assert(rt.contains(m));
                    } else {
                        assert(r[j] == es1[j]);
                        assert(describes_one_of(rt, es1[j]));
                    }
                },
                None => {
                    if j == es1.len() {
                        assert(r[j] == (m.name@, type_json(m)));
                        assert(rt.contains(m));
                    } else {
                        assert(r[j] == es1[j]);
                        assert(describes_one_of(rt, es1[j]));
                    }
                },
            }
        }
    }
}

proof fn lemma_fields_entries_describe(fs: Seq<FieldMeta>, es: Entries)
    ensures
        new_entries_describe(es, fields_entries(fs, es), reach_tags_fields(fs)),
    decreases fields_size(fs), 1nat, fs.len(),
{
    if fs.len() > 0 {
        let es1 = fields_entries(fs.drop_last(), es);
        lemma_fields_entries_describe(fs.drop_last(), es);
        lemma_fields_entries_grow(fs.drop_last(), es);
        let f = fs.last();
        let prev = reach_tags_fields(fs.drop_last());
        if !f.skip && f.structure is Some {
            let s = f.structure->0;
            assert(field_size(f) == tag_size(*s));
            lemma_type_entries_describe(*s, es1);
            lemma_type_entries_grow(*s, es1);
            lemma_describe_chain(es, es1, type_entries(*s, es1), prev, reach_tags(*s));
        } else {
            assert(reach_tags_fields(fs) =~= prev);
        }
    }
}

proof fn lemma_variants_entries_describe(vs: Seq<EnumVariantMeta>, es: Entries)
    ensures
        new_entries_describe(es, variants_entries(vs, es), reach_tags_variants(vs)),
    decreases variants_size(vs), 2nat, vs.len(),
{
    if vs.len() > 0 {
        let es1 = variants_entries(vs.drop_last(), es);
        lemma_variants_entries_describe(vs.drop_last(), es);
        lemma_variants_entries_grow(vs.drop_last(), es);
        lemma_fields_entries_describe(vs.last().fields@, es1);
        lemma_fields_entries_grow(vs.last().fields@, es1);
        lemma_describe_chain(
            es,
            es1,
            variants_entries(vs, es),
            reach_tags_variants(vs.drop_last()),
            reach_tags_fields(vs.last().fields@),
        );
    }
}

/// Describing a type adds only descriptions of itself and of the types
/// nested in it: every entry past the old ones is the name and the
/// description of one of these types, so every name in the table
/// afterwards was there before or names one of them.
pub proof fn law_type_description_adds_reachable_types(m: TagMeta, es: Entries)
    ensures
        new_entries_describe(es, type_entries(m, es), reach_tags(m)),
        forall|k: Seq<char>|
            #[trigger] key_pos(type_entries(m, es), k) is Some ==> key_pos(es, k) is Some || exists|t: TagMeta|
                reach_tags(m).contains(t) && t.name@ == k,
{
    lemma_type_entries_describe(m, es);
    lemma_type_entries_grow(m, es);
    let r = type_entries(m, es);
    assert forall|k: Seq<char>| #[trigger] key_pos(r, k) is Some implies key_pos(es, k) is Some || exists|
        t: TagMeta,
    | reach_tags(m).contains(t) && t.name@ == k by {
        lemma_key_pos(r, k);
        lemma_key_pos(es, k);
        let i = key_pos(r, k)->0;
        if i < es.len() {
            assert(es[i] == r.subrange(0, es.len() as int)[i]);
        } else {
            assert(describes_one_of(reach_tags(m), r[i]));
            let t = choose|t: TagMeta| #[trigger] reach_tags(m).contains(t) && r[i] == (t.name@, type_json(t));
            assert(reach_tags(m).contains(t) && t.name@ == k);
        }
    }
}

/// `k` names an entry of `es`.
pub open spec fn is_key(es: Entries, k: Seq<char>) -> bool {
    key_pos(es, k) is Some
}

/// Every name of `ns` names an entry of `es`.
pub open spec fn all_keys(ns: Seq<Seq<char>>, es: Entries) -> bool {
    forall|i: int| 0 <= i < ns.len() ==> is_key(es, #[trigger] ns[i])
}

/// Every type of `us` that `es` describes has the names of all the types
/// nested in it described in `es` too.
pub open spec fn closed_under(es: Entries, us: Seq<TagMeta>) -> bool {
    forall|t: TagMeta| #[trigger] us.contains(t) && is_key(es, t.name@) ==> all_keys(reach(t), es)
}

/// No two different types of `us` share a name.
pub open spec fn names_identify(us: Seq<TagMeta>) -> bool {
    forall|t1: TagMeta, t2: TagMeta|
        #[trigger] us.contains(t1) && #[trigger] us.contains(t2) && t1.name@ == t2.name@ ==> t1 == t2
}

/// Every type of `ts` is one of `us`.
pub open spec fn tags_within(ts: Seq<TagMeta>, us: Seq<TagMeta>) -> bool {
    forall|t: TagMeta| #[trigger] ts.contains(t) ==> us.contains(t)
}

proof fn lemma_prefix_key(a: Entries, b: Entries, k: Seq<char>)
    requires
        a.is_prefix_of(b),
        is_key(a, k),
    ensures
        is_key(b, k),
{
    lemma_key_pos(a, k);
    lemma_key_pos(b, k);
    let i = key_pos(a, k)->0;
    assert(b.subrange(0, a.len() as int)[i] == a[i]);
}

proof fn lemma_prefix_all_keys(ns: Seq<Seq<char>>, a: Entries, b: Entries)
    requires
        a.is_prefix_of(b),
        all_keys(ns, a),
    ensures
        all_keys(ns, b),
{
    assert forall|i: int| 0 <= i < ns.len() implies is_key(b, #[trigger] ns[i]) by {
        lemma_prefix_key(a, b, ns[i]);
    }
}

proof fn lemma_all_keys_concat(xs: Seq<Seq<char>>, ys: Seq<Seq<char>>, es: Entries)
    requires
        all_keys(xs, es),
        all_keys(ys, es),
    ensures
        all_keys(xs + ys, es),
{
    assert forall|i: int| 0 <= i < (xs + ys).len() implies is_key(es, #[trigger] (xs + ys)[i]) by {
        if i < xs.len() {
            assert((xs + ys)[i] == xs[i]);
        } else {
            assert((xs + ys)[i] == ys[i - xs.len()]);
        }
    }
}

proof fn lemma_insert_keys(es: Entries, k: Seq<char>, v: Seq<char>, x: Seq<char>)
    ensures
        is_key(entries_insert(es, k, v), k),
        is_key(es, x) ==> is_key(entries_insert(es, k, v), x),
        is_key(entries_insert(es, k, v), x) ==> is_key(es, x) || x == k,
{
    let r = entries_insert(es, k, v);
    lemma_key_pos(es, k);
    lemma_key_pos(es, x);
    lemma_key_pos(r, k);
    lemma_key_pos(r, x);
    match key_pos(es, k) {
        Some(i) => {
            assert(r[i].0 == k);
            if is_key(es, x) {
                let j = key_pos(es, x)->0;
                assert(r[j].0 == es[j].0);
            }
            if is_key(r, x) {
                let j = key_pos(r, x)->0;
                if j != i {
                    assert(r[j] == es[j]);
                }
            }
        },
        None => {
            assert(r[es.len() as int].0 == k);
            if is_key(es, x) {
                let j = key_pos(es, x)->0;
                assert(r[j] == es[j]);
            }
            if is_key(r, x) {
                let j = key_pos(r, x)->0;
                if j < es.len() {
                    assert(r[j] == es[j]);
                }
            }
        },
    }
}

proof fn lemma_tags_concat(a: Seq<TagMeta>, b: Seq<TagMeta>, us: Seq<TagMeta>)
    requires
        tags_within(a + b, us),
    ensures
        tags_within(a, us),
        tags_within(b, us),
{
    lemma_contains_concat(a, b);
}

proof fn lemma_type_entries_cover(m: TagMeta, es: Entries, us: Seq<TagMeta>)
    requires
        tags_within(reach_tags(m), us),
        names_identify(us),
        closed_under(es, us),
    ensures
        all_keys(reach(m), type_entries(m, es)),
        closed_under(type_entries(m, es), us),
    decreases tag_size(m), 0nat, 0nat,
{
    let rt = reach_tags(m);
    assert(rt[0] == m);
    assert(rt.contains(m));
    assert(us.contains(m));
    if is_key(es, m.name@) {
        assert(us.contains(m) && is_key(es, m.name@));
    } else {
        let tail = match m.kind {
            TagKind::Struct(fs) => reach_tags_fields(fs@),
            TagKind::Enum(vs) => reach_tags_variants(vs@),
        };
        let names_tail = match m.kind {
            TagKind::Struct(fs) => reach_fields(fs@),
            TagKind::Enum(vs) => reach_variants(vs@),
        };
        assert(rt == seq![m] + tail);
        lemma_tags_concat(seq![m], tail, us);
        let es1 = match m.kind {
            TagKind::Struct(fs) => fields_entries(fs@, es),
            TagKind::Enum(vs) => variants_entries(vs@, es),
        };
        match m.kind {
            TagKind::Struct(fs) => lemma_fields_entries_cover(fs@, es, us),
            TagKind::Enum(vs) => lemma_variants_entries_cover(vs@, es, us),
        }
        let r = type_entries(m, es);
        assert(r == entries_insert(es1, m.name@, type_json(m)));
        lemma_insert_keys(es1, m.name@, type_json(m), m.name@);
        assert(all_keys(names_tail, r)) by {
            assert forall|i: int| 0 <= i < names_tail.len() implies is_key(r, #[trigger] names_tail[i]) by {
                lemma_insert_keys(es1, m.name@, type_json(m), names_tail[i]);
            }
        }
        assert(all_keys(seq![m.name@], r)) by {
            assert(seq![m.name@][0] == m.name@);
        }
        lemma_all_keys_concat(seq![m.name@], names_tail, r);
        assert(reach(m) == seq![m.name@] + names_tail);
        assert forall|t: TagMeta| #[trigger] us.contains(t) && is_key(r, t.name@) implies all_keys(reach(t), r) by {
            lemma_insert_keys(es1, m.name@, type_json(m), t.name@);
            if is_key(es1, t.name@) {
                assert(all_keys(reach(t), es1));
                assert forall|i: int| 0 <= i < reach(t).len() implies is_key(r, #[trigger] reach(t)[i]) by {
                    lemma_insert_keys(es1, m.name@, type_json(m), reach(t)[i]);
                }
            } else {
                assert(t == m);
            }
        }
    }
}

proof fn lemma_fields_entries_cover(fs: Seq<FieldMeta>, es: Entries, us: Seq<TagMeta>)
    requires
        tags_within(reach_tags_fields(fs), us),
        names_identify(us),
        closed_under(es, us),
    ensures
        all_keys(reach_fields(fs), fields_entries(fs, es)),
        closed_under(fields_entries(fs, es), us),
    decreases fields_size(fs), 1nat, fs.len(),
{
    if fs.len() > 0 {
        let f = fs.last();
        let prev = reach_tags_fields(fs.drop_last());
        let es1 = fields_entries(fs.drop_last(), es);
        if !f.skip && f.structure is Some {
            let s = f.structure->0;
            assert(field_size(f) == tag_size(*s));
            assert(reach_tags_fields(fs) == prev + reach_tags(*s));
            lemma_tags_concat(prev, reach_tags(*s), us);
            lemma_fields_entries_cover(fs.drop_last(), es, us);
            lemma_type_entries_cover(*s, es1, us);
            lemma_type_entries_grow(*s, es1);
            lemma_prefix_all_keys(reach_fields(fs.drop_last()), es1, type_entries(*s, es1));
            lemma_all_keys_concat(reach_fields(fs.drop_last()), reach(*s), type_entries(*s, es1));
            assert(reach_fields(fs) == reach_fields(fs.drop_last()) + reach(*s));
        } else {
            assert(reach_tags_fields(fs) =~= prev);
            lemma_fields_entries_cover(fs.drop_last(), es, us);
            assert(reach_fields(fs) =~= reach_fields(fs.drop_last()));
        }
    } else {
        assert(all_keys(reach_fields(fs), es));
    }
}

proof fn lemma_variants_entries_cover(vs: Seq<EnumVariantMeta>, es: Entries, us: Seq<TagMeta>)
    requires
        tags_within(reach_tags_variants(vs), us),
        names_identify(us),
        closed_under(es, us),
    ensures
        all_keys(reach_variants(vs), variants_entries(vs, es)),
        closed_under(variants_entries(vs, es), us),
    decreases variants_size(vs), 2nat, vs.len(),
{
    if vs.len() > 0 {
        let es1 = variants_entries(vs.drop_last(), es);
        let fs = vs.last().fields@;
        lemma_tags_concat(reach_tags_variants(vs.drop_last()), reach_tags_fields(fs), us);
        lemma_variants_entries_cover(vs.drop_last(), es, us);
        lemma_fields_entries_cover(fs, es1, us);
        lemma_fields_entries_grow(fs, es1);
        lemma_prefix_all_keys(reach_variants(vs.drop_last()), es1, fields_entries(fs, es1));
        lemma_all_keys_concat(reach_variants(vs.drop_last()), reach_fields(fs), fields_entries(fs, es1));
    } else {
        assert(all_keys(reach_variants(vs), es));
    }
}

/// Describing a type into a table describes every type nested in it, as
/// long as the types reachable from it are told apart by their names and
/// the table holds no type without the types nested in it (an empty table,
/// say). With [`law_type_description_adds_reachable_types`], the names in
/// the table afterwards are exactly those before and those of the
/// reachable types.
pub proof fn law_type_description_covers_nested_types(m: TagMeta, es: Entries)
    requires
        names_identify(reach_tags(m)),
        closed_under(es, reach_tags(m)),
    ensures
        all_keys(reach(m), type_entries(m, es)),
{
    lemma_type_entries_cover(m, es, reach_tags(m));
}

/// The line of the page's form validation that checks a value against a
/// rule named `name` with the comparison `op`.
pub open spec fn page_rule_check(name: Seq<char>, op: Seq<char>) -> Seq<char> {
    "            case '"@ + name + "': if (!(Number(val) "@ + op + " r.value)) return false; break;\n"@
}

/// `piece` occurs in `s`.
pub open spec fn occurs_in(piece: Seq<char>, s: Seq<char>) -> bool {
    exists|i: int| 0 <= i && i + piece.len() <= s.len() && #[trigger] s.subrange(i, i + piece.len()) == piece
}

proof fn lemma_occurs_in_middle(piece: Seq<char>, a: Seq<char>, x: Seq<char>, b: Seq<char>, i: int)
    requires
        0 <= i && i + piece.len() <= x.len(),
        x.subrange(i, i + piece.len()) == piece,
    ensures
        occurs_in(piece, a + x + b),
{
    let s = a + x + b;
    let j = a.len() + i;
    assert(s.subrange(j, j + piece.len()) =~= piece) by {
        assert forall|k: int| 0 <= k < piece.len() implies s.subrange(j, j + piece.len())[k] == piece[k] by {
            assert(s[j + k] == x[i + k]);
            assert(x.subrange(i, i + piece.len())[k] == x[i + k]);
        }
    }
}

/// The schema names each bound rule so that the documentation page checks
/// it as the rule means: the rule's JSON object carries a name for which
/// the page's script holds a check with a comparison that holds of a value
/// and the bound exactly when the rule admits the value (`lte` is checked
/// with `<=`, so a value equal to the bound passes).
pub proof fn law_rule_json_names_the_check_the_page_applies(r: ValidateRule)
    requires
        is_bound(r),
    ensures
        exists|name: Seq<char>, op: Seq<char>|
            rule_json(r) == #[trigger] bound_json(name, bound_value(r), rule_code(r), rule_message(r))
                && occurs_in(#[trigger] page_rule_check(name, op), ui_js_text()) && forall|x: int, v: int|
                #[trigger] comparison_holds(op, x, v) <==> bound_admits(r, x, v),
{
    lemma_operator_texts();
    reveal_strlit("            case 'gt': if (!(Number(val) > r.value)) return false; break;\n            case 'gte': if (!(Number(val) >= r.value)) return false; break;\n            case 'lt': if (!(Number(val) < r.value)) return false; break;\n            case 'lte': if (!(Number(val) <= r.value)) return false; break;\n");
    reveal_strlit("            case '");
    reveal_strlit("': if (!(Number(val) ");
    reveal_strlit(" r.value)) return false; break;\n");
    reveal_strlit("gt");
    reveal_strlit("gte");
    reveal_strlit("lt");
    reveal_strlit("lte");
    let checks = UI_JS_RULE_CHECKS@;
    assert(checks == "            case 'gt': if (!(Number(val) > r.value)) return false; break;\n            case 'gte': if (!(Number(val) >= r.value)) return false; break;\n            case 'lt': if (!(Number(val) < r.value)) return false; break;\n            case 'lte': if (!(Number(val) <= r.value)) return false; break;\n"@);
    let (name, op, at): (Seq<char>, Seq<char>, int) = match r {
        ValidateRule::Gt { .. } => ("gt"@, ">"@, 0int),
        ValidateRule::Gte { .. } => ("gte"@, ">="@, 74int),
        ValidateRule::Lt { .. } => ("lt"@, "<"@, 150int),
        _ => ("lte"@, "<="@, 224int),
    };
    let piece = page_rule_check(name, op);
    assert(checks.subrange(at, at + piece.len()) =~= piece);
    let before = UI_JS_1@ + UI_JS_2@ + UI_JS_3@ + UI_JS_4@;
    let after = UI_JS_4_REST@ + UI_JS_5@ + UI_JS_6@ + UI_JS_7@ + UI_JS_8@ + UI_JS_9@ + UI_JS_10@ + UI_JS_11@
        + UI_JS_12@ + UI_JS_13@ + UI_JS_14@ + UI_JS_15@ + UI_JS_16@ + UI_JS_17@ + UI_JS_18@ + UI_JS_19@
        + UI_JS_20@ + UI_JS_21@ + UI_JS_22@ + UI_JS_23@ + UI_JS_24@ + UI_JS_25@;
    assert(ui_js_text() =~= before + checks + after);
    lemma_occurs_in_middle(piece, before, checks, after, at);
    assert forall|x: int, v: int| #[trigger] comparison_holds(op, x, v) <==> bound_admits(r, x, v) by {
        assert(seq!['<'].len() == 1 && seq!['<', '='].len() == 2 && seq!['>'].len() == 1);
        assert(seq!['<'][0] != seq!['>'][0]);
        assert(seq!['<', '='][0] != seq!['>', '='][0]);
    }
    assert(rule_json(r) == bound_json(name, bound_value(r), rule_code(r), rule_message(r)));
}

} // verus!
