use vstd::prelude::*;
use crate::templates::{
    attrs_view, fields_view, sections_view, AttrModel, Attribute, FieldModel, FieldSectionModel,
    ItemField, ItemFieldSection, ItemModel, ItemSection, ItemType, Member, OnePasswordItem,
    SectionModel, member_str_view, named_type_json,
};

verus! {

/// Lower-case hexadecimal digits.
pub open spec fn hex_digits() -> Seq<char> {
    seq!['0', '1', '2', '3', '4', '5', '6', '7', '8', '9', 'a', 'b', 'c', 'd', 'e', 'f']
}

/// How one character stands inside a JSON string: quote and backslash
/// escaped, the five short escapes, other control characters as `\u00xx`,
/// everything else as it is.
pub open spec fn escaped_char(c: char) -> Seq<char> {
    if c == '"' {
        seq!['\\', '"']
    } else if c == '\\' {
        seq!['\\', '\\']
    } else if c == '\u{8}' {
        seq!['\\', 'b']
    } else if c == '\t' {
        seq!['\\', 't']
    } else if c == '\n' {
        seq!['\\', 'n']
    } else if c == '\u{c}' {
        seq!['\\', 'f']
    } else if c == '\r' {
        seq!['\\', 'r']
    } else if (c as u32) < 0x20 {
        seq![
            '\\',
            'u',
            '0',
            '0',
            hex_digits()[((c as u32) / 16) as int],
            hex_digits()[((c as u32) % 16) as int],
        ]
    } else {
        seq![c]
    }
}

pub open spec fn escaped(s: Seq<char>) -> Seq<char>
    decreases s.len(),
{
    if s.len() == 0 {
        Seq::empty()
    } else {
        escaped(s.drop_last()) + escaped_char(s.last())
    }
}

/// The JSON string literal for the given characters.
pub open spec fn json_string_of(s: Seq<char>) -> Seq<char> {
    seq!['"'] + escaped(s) + seq!['"']
}

#[verifier::external_type_specification]
#[verifier::external_body]
pub struct ExJsonError(serde_json::Error);

/// Relies on serde_json::to_string applied to a `str`: it writes the quoted
/// and escaped string into a `Vec<u8>`, which cannot fail.
#[verifier::external_body]
fn json_quote(s: &str) -> (r: Result<String, serde_json::Error>)
    ensures
        r is Ok,
        r->Ok_0@ == json_string_of(s@),
{
    serde_json::to_string(s)
}

/// One passthrough attribute as it follows earlier members of an object.
pub open spec fn attr_json(a: AttrModel) -> Seq<char> {
    ","@ + json_string_of(a.key) + ":"@ + a.json
}

pub open spec fn attrs_json(a: Seq<AttrModel>) -> Seq<char>
    decreases a.len(),
{
    if a.len() == 0 {
        Seq::empty()
    } else {
        attrs_json(a.drop_last()) + attr_json(a.last())
    }
}

/// A string member after earlier members, `key` holding its comma, name
/// and colon: nothing when it is absent, else `null` or the string.
pub open spec fn str_member_json(key: Seq<char>, m: Member<Seq<char>>) -> Seq<char> {
    match m {
        Member::Absent => Seq::empty(),
        Member::Null => key + "null"@,
        Member::Given(v) => key + json_string_of(v),
    }
}

pub open spec fn type_json(t: ItemType) -> Seq<char> {
    named_type_json(t)
}

pub open spec fn field_section_json(s: FieldSectionModel) -> Seq<char> {
    "{\"id\":"@ + json_string_of(s.id) + attrs_json(s.extra) + "}"@
}

pub open spec fn section_json(s: SectionModel) -> Seq<char> {
    "{\"id\":"@ + json_string_of(s.id) + ",\"label\":"@ + json_string_of(s.label) + attrs_json(
        s.extra,
    ) + "}"@
}

pub open spec fn field_section_member_json(m: Member<FieldSectionModel>) -> Seq<char> {
    match m {
        Member::Absent => Seq::empty(),
        Member::Null => ",\"section\":"@ + "null"@,
        Member::Given(s) => ",\"section\":"@ + field_section_json(s),
    }
}

/// The modelled members of a field, with the leading brace.
pub open spec fn field_members_json(f: FieldModel) -> Seq<char> {
    "{\"id\":"@ + json_string_of(f.id) + field_section_member_json(f.section) + ",\"type\":"@
        + type_json(f.item_type) + str_member_json(",\"label\":"@, f.label) + str_member_json(
        ",\"value\":"@,
        f.value,
    ) + ",\"reference\":"@ + json_string_of(f.reference)
}

pub open spec fn field_json(f: FieldModel) -> Seq<char> {
    field_members_json(f) + attrs_json(f.extra) + "}"@
}

/// The parts separated by commas.
pub open spec fn joined(parts: Seq<Seq<char>>) -> Seq<char>
    decreases parts.len(),
{
    if parts.len() == 0 {
        Seq::empty()
    } else if parts.len() == 1 {
        parts[0]
    } else {
        joined(parts.drop_last()) + ","@ + parts.last()
    }
}

pub open spec fn sections_json(s: Seq<SectionModel>) -> Seq<char> {
    "["@ + joined(s.map_values(|x: SectionModel| section_json(x))) + "]"@
}

pub open spec fn fields_json(f: Seq<FieldModel>) -> Seq<char> {
    "["@ + joined(f.map_values(|x: FieldModel| field_json(x))) + "]"@
}

/// The members of an item before its fields, with the leading brace.
pub open spec fn item_head_json(m: ItemModel) -> Seq<char> {
    "{\"id\":"@ + json_string_of(m.id) + ",\"title\":"@ + json_string_of(m.title)
        + ",\"category\":"@ + json_string_of(m.category) + match m.sections {
        Member::Absent => Seq::empty(),
        Member::Null => ",\"sections\":"@ + "null"@,
        Member::Given(s) => ",\"sections\":"@ + sections_json(s),
    }
}

/// The modelled members of an item, with the leading brace.
pub open spec fn item_members_json(m: ItemModel) -> Seq<char> {
    item_head_json(m) + match m.fields {
        Member::Absent => Seq::empty(),
        Member::Null => ",\"fields\":"@ + "null"@,
        Member::Given(f) => ",\"fields\":"@ + fields_json(f),
    }
}

/// The item in serde_json's compact form: the modelled members in order,
/// then the passthrough attributes in their order.
pub open spec fn item_json(m: ItemModel) -> Seq<char> {
    item_members_json(m) + attrs_json(m.extra) + "}"@
}

proof fn lemma_joined_step(parts: Seq<Seq<char>>, i: int)
    requires
        0 <= i < parts.len(),
    ensures
        joined(parts.take(i + 1)) == joined(parts.take(i)) + (if i > 0 {
            ","@
        } else {
            Seq::empty()
        }) + parts[i],
{
    let t = parts.take(i + 1);
    assert(t.drop_last() =~= parts.take(i));
    if i == 0 {
        assert(joined(parts.take(0)) =~= Seq::empty());
        assert(Seq::<char>::empty() + Seq::<char>::empty() + parts[0] =~= parts[0]);
    }
}

fn write_str(out: &mut String, s: &str)
    ensures
        final(out)@ == old(out)@ + json_string_of(s@),
{
    match json_quote(s) {
        Ok(q) => out.append(q.as_str()),
        Err(_) => {},
    }
}

fn write_member(out: &mut String, key: &str, m: &Member<String>)
    ensures
        final(out)@ == old(out)@ + str_member_json(key@, member_str_view(*m)),
{
    match m {
        Member::Absent => {
            assert(old(out)@ + Seq::<char>::empty() =~= old(out)@);
        },
        Member::Null => {
            let ghost start = out@;
            out.append(key);
            out.append("null");
            assert(out@ =~= start + (key@ + "null"@));
        },
        Member::Given(v) => {
            let ghost start = out@;
            out.append(key);
            write_str(out, v.as_str());
            assert(out@ =~= start + (key@ + json_string_of(v@)));
        },
    }
}

fn write_attrs(out: &mut String, attrs: &Vec<Attribute>)
    ensures
        final(out)@ == old(out)@ + attrs_json(attrs_view(attrs@)),
{
    let ghost start = out@;
    let ghost m = attrs_view(attrs@);
    let mut i: usize = 0;
    while i < attrs.len()
        invariant
            m == attrs_view(attrs@),
            i <= attrs@.len(),
            out@ == start + attrs_json(m.take(i as int)),
        decreases attrs@.len() - i,
    {
        let a = &attrs[i];
        assert(m.take(i + 1).drop_last() =~= m.take(i as int));
        out.append(",");
        write_str(out, a.key.as_str());
        out.append(":");
        out.append(a.json.as_str());
        i = i + 1;
    }
    assert(m.take(i as int) =~= m);
}

fn write_type(out: &mut String, t: &ItemType)
    ensures
        final(out)@ == old(out)@ + type_json(*t),
{
    let word = match t {
        ItemType::Concealed => "\"CONCEALED\"",
        ItemType::String => "\"STRING\"",
        ItemType::Email => "\"EMAIL\"",
        ItemType::Url => "\"URL\"",
        ItemType::Date => "\"DATE\"",
        ItemType::MonthYear => "\"MONTH_YEAR\"",
        ItemType::Phone => "\"PHONE\"",
        ItemType::Otp => "\"OTP\"",
        ItemType::Menu => "\"MENU\"",
        ItemType::Unknown(raw) => raw.as_str(),
    };
    out.append(word);
}

fn write_field_section(out: &mut String, s: &ItemFieldSection)
    ensures
        final(out)@ == old(out)@ + field_section_json(s@),
{
    let ghost start = out@;
    out.append("{\"id\":");
    write_str(out, s.id.as_str());
    write_attrs(out, &s.extra);
    out.append("}");
    assert(out@ =~= start + field_section_json(s@));
}

fn write_section(out: &mut String, s: &ItemSection)
    ensures
        final(out)@ == old(out)@ + section_json(s@),
{
    let ghost start = out@;
    out.append("{\"id\":");
    write_str(out, s.id.as_str());
    out.append(",\"label\":");
    write_str(out, s.label.as_str());
    write_attrs(out, &s.extra);
    out.append("}");
    assert(out@ =~= start + section_json(s@));
}

/// The members of a field before its value, with their leading brace.
pub open spec fn field_head_json(f: FieldModel) -> Seq<char> {
    "{\"id\":"@ + json_string_of(f.id) + field_section_member_json(f.section) + ",\"type\":"@
        + type_json(f.item_type) + str_member_json(",\"label\":"@, f.label)
}

/// The members of a field from its value on, with the closing brace.
pub open spec fn field_tail_json(f: FieldModel) -> Seq<char> {
    str_member_json(",\"value\":"@, f.value) + ",\"reference\":"@ + json_string_of(f.reference)
        + attrs_json(f.extra) + "}"@
}

fn write_field_head(out: &mut String, f: &ItemField)
    ensures
        final(out)@ == old(out)@ + field_head_json(f@),
{
    let ghost start = out@;
    out.append("{\"id\":");
    write_str(out, f.id.as_str());
    match &f.section {
        Member::Absent => {},
        Member::Null => {
            out.append(",\"section\":");
            out.append("null");
        },
        Member::Given(s) => {
            out.append(",\"section\":");
            write_field_section(out, s);
        },
    }
    out.append(",\"type\":");
    write_type(out, &f.item_type);
    write_member(out, ",\"label\":", &f.label);
    assert(out@ =~= start + field_head_json(f@));
}

fn write_field_tail(out: &mut String, f: &ItemField)
    ensures
        final(out)@ == old(out)@ + field_tail_json(f@),
{
    let ghost start = out@;
    write_member(out, ",\"value\":", &f.value);
    out.append(",\"reference\":");
    write_str(out, f.reference.as_str());
    write_attrs(out, &f.extra);
    out.append("}");
    assert(out@ =~= start + field_tail_json(f@));
}

fn write_field(out: &mut String, f: &ItemField)
    ensures
        final(out)@ == old(out)@ + field_json(f@),
{
    let ghost start = out@;
    write_field_head(out, f);
    write_field_tail(out, f);
    assert(field_json(f@) =~= field_head_json(f@) + field_tail_json(f@));
    assert(out@ =~= start + field_json(f@));
}

fn write_sections(out: &mut String, s: &Vec<ItemSection>)
    ensures
        final(out)@ == old(out)@ + sections_json(sections_view(s@)),
{
    let ghost start = out@;
    let ghost parts = sections_view(s@).map_values(|x: SectionModel| section_json(x));
    out.append("[");
    let mut i: usize = 0;
    while i < s.len()
        invariant
            parts == sections_view(s@).map_values(|x: SectionModel| section_json(x)),
            i <= s@.len(),
            out@ == start + "["@ + joined(parts.take(i as int)),
        decreases s@.len() - i,
    {
        proof {
            lemma_joined_step(parts, i as int);
        }
        if i > 0 {
            out.append(",");
        }
        write_section(out, &s[i]);
        assert(out@ =~= start + "["@ + joined(parts.take(i + 1)));
        i = i + 1;
    }
    assert(parts.take(i as int) =~= parts);
    out.append("]");
    assert(out@ =~= start + sections_json(sections_view(s@)));
}

fn write_fields(out: &mut String, f: &Vec<ItemField>)
    ensures
        final(out)@ == old(out)@ + fields_json(fields_view(f@)),
{
    let ghost start = out@;
    let ghost parts = fields_view(f@).map_values(|x: FieldModel| field_json(x));
    out.append("[");
    let mut i: usize = 0;
    while i < f.len()
        invariant
            parts == fields_view(f@).map_values(|x: FieldModel| field_json(x)),
            i <= f@.len(),
            out@ == start + "["@ + joined(parts.take(i as int)),
        decreases f@.len() - i,
    {
        proof {
            lemma_joined_step(parts, i as int);
        }
        if i > 0 {
            out.append(",");
        }
        write_field(out, &f[i]);
        assert(out@ =~= start + "["@ + joined(parts.take(i + 1)));
        i = i + 1;
    }
    assert(parts.take(i as int) =~= parts);
    out.append("]");
    assert(out@ =~= start + fields_json(fields_view(f@)));
}

/// The item as JSON text, in serde_json's compact form.
pub fn serialize(item: &OnePasswordItem) -> (r: String)
    ensures
        r@ == item_json(item@),
{
    let mut out = String::new();
    out.append("{\"id\":");
    write_str(&mut out, item.id.as_str());
    out.append(",\"title\":");
    write_str(&mut out, item.title.as_str());
    out.append(",\"category\":");
    write_str(&mut out, item.category.as_str());
    match &item.sections {
        Member::Absent => {},
        Member::Null => {
            out.append(",\"sections\":");
            out.append("null");
        },
        Member::Given(s) => {
            out.append(",\"sections\":");
            write_sections(&mut out, s);
        },
    }
    match &item.fields {
        Member::Absent => {},
        Member::Null => {
            out.append(",\"fields\":");
            out.append("null");
        },
        Member::Given(f) => {
            out.append(",\"fields\":");
            write_fields(&mut out, f);
        },
    }
    write_attrs(&mut out, &item.extra);
    out.append("}");
    assert(out@ =~= item_json(item@));
    out
}

} // verus!
