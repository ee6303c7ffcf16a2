use vstd::prelude::*;

verus! {

/// New credentials to place in the vault, grouped by issuer.
#[derive(Clone, Debug, PartialEq, Eq, Hash)]
pub struct Creds {
    pub issuers: Vec<CredsIssuer>,
}

#[derive(Clone, Debug, PartialEq, Eq, Hash)]
pub struct CredsIssuer {
    pub issuer: String,
    pub credentials: Vec<Cred>,
}

#[derive(Clone, Debug, PartialEq, Eq, Hash)]
pub struct Cred {
    pub name: String,
    pub value: String,
}

/// One entry of a vault listing.
#[derive(Clone, Debug, PartialEq, Eq, Hash)]
pub struct OnePasswordListItem {
    pub id: String,
    pub title: String,
}

/// An attribute that the item schema does not model, kept as its key and
/// the JSON text of its value so that it is written back as it was read.
#[derive(Clone, Debug, PartialEq, Eq)]
pub struct Attribute {
    pub key: String,
    pub json: String,
}

/// An optional member of a JSON object: left out, written as `null`, or given.
#[derive(Clone, Debug, PartialEq, Eq)]
pub enum Member<T> {
    Absent,
    Null,
    Given(T),
}

/// A vault item's full template.
#[derive(Clone, Debug, PartialEq, Eq)]
pub struct OnePasswordItem {
    pub id: String,
    pub title: String,
    pub category: String,
    pub sections: Member<Vec<ItemSection>>,
    pub fields: Member<Vec<ItemField>>,
    pub extra: Vec<Attribute>,
}

#[derive(Clone, Debug, PartialEq, Eq)]
pub struct ItemSection {
    pub id: String,
    pub label: String,
    pub extra: Vec<Attribute>,
}

#[derive(Clone, Debug, PartialEq, Eq)]
pub struct ItemField {
    /// If this matches a category built-in field, the type does not need to be specified.
    pub id: String,
    pub section: Member<ItemFieldSection>,
    pub item_type: ItemType,
    pub label: Member<String>,
    pub value: Member<String>,
    pub reference: String,
    pub extra: Vec<Attribute>,
}

#[derive(Clone, Debug, PartialEq, Eq)]
pub struct ItemFieldSection {
    pub id: String,
    pub extra: Vec<Attribute>,
}

/// The kinds of field a vault item can hold.
#[derive(Clone, Debug, PartialEq, Eq, Hash)]
pub enum ItemType {
    /// A concealed password.
    Concealed,
    String,
    Email,
    Url,
    /// `YYYY-MM-DD`
    Date,
    /// `YYYYMM` or `YYYY/MM`
    MonthYear,
    Phone,
    /// Accepts `otpauth://` URI
    Otp,
    /// An undocumented field. For example, used by the `type` field in API Credential items
    Menu,
    /// Any other value, kept as its JSON text.
    Unknown(String),
}

// Mathematical models of the item types.

pub struct AttrModel {
    pub key: Seq<char>,
    pub json: Seq<char>,
}

pub struct FieldSectionModel {
    pub id: Seq<char>,
    pub extra: Seq<AttrModel>,
}

pub struct SectionModel {
    pub id: Seq<char>,
    pub label: Seq<char>,
    pub extra: Seq<AttrModel>,
}

pub struct FieldModel {
    pub id: Seq<char>,
    pub section: Member<FieldSectionModel>,
    pub item_type: ItemType,
    pub label: Member<Seq<char>>,
    pub value: Member<Seq<char>>,
    pub reference: Seq<char>,
    pub extra: Seq<AttrModel>,
}

pub struct ItemModel {
    pub id: Seq<char>,
    pub title: Seq<char>,
    pub category: Seq<char>,
    pub sections: Member<Seq<SectionModel>>,
    pub fields: Member<Seq<FieldModel>>,
    pub extra: Seq<AttrModel>,
}

pub open spec fn member_str_view(s: Member<String>) -> Member<Seq<char>> {
    match s {
        Member::Given(v) => Member::Given(v@),
        Member::Null => Member::Null,
        Member::Absent => Member::Absent,
    }
}

pub open spec fn attrs_view(a: Seq<Attribute>) -> Seq<AttrModel> {
    a.map_values(|x: Attribute| x@)
}

pub open spec fn sections_view(s: Seq<ItemSection>) -> Seq<SectionModel> {
    s.map_values(|x: ItemSection| x@)
}

pub open spec fn fields_view(f: Seq<ItemField>) -> Seq<FieldModel> {
    f.map_values(|x: ItemField| x@)
}

impl View for Attribute {
    type V = AttrModel;

    open spec fn view(&self) -> AttrModel {
        AttrModel { key: self.key@, json: self.json@ }
    }
}

impl View for ItemFieldSection {
    type V = FieldSectionModel;

    open spec fn view(&self) -> FieldSectionModel {
        FieldSectionModel { id: self.id@, extra: attrs_view(self.extra@) }
    }
}

impl View for ItemSection {
    type V = SectionModel;

    open spec fn view(&self) -> SectionModel {
        SectionModel { id: self.id@, label: self.label@, extra: attrs_view(self.extra@) }
    }
}

impl View for ItemField {
    type V = FieldModel;

    open spec fn view(&self) -> FieldModel {
        FieldModel {
            id: self.id@,
            section: match self.section {
                Member::Given(s) => Member::Given(s@),
                Member::Null => Member::Null,
                Member::Absent => Member::Absent,
            },
            item_type: self.item_type,
            label: member_str_view(self.label),
            value: member_str_view(self.value),
            reference: self.reference@,
            extra: attrs_view(self.extra@),
        }
    }
}

impl View for OnePasswordItem {
    type V = ItemModel;

    open spec fn view(&self) -> ItemModel {
        ItemModel {
            id: self.id@,
            title: self.title@,
            category: self.category@,
            sections: match self.sections {
                Member::Given(s) => Member::Given(sections_view(s@)),
                Member::Null => Member::Null,
                Member::Absent => Member::Absent,
            },
            fields: match self.fields {
                Member::Given(f) => Member::Given(fields_view(f@)),
                Member::Null => Member::Null,
                Member::Absent => Member::Absent,
            },
            extra: attrs_view(self.extra@),
        }
    }
}

/// How an item names itself in messages: its title and its id.
pub open spec fn item_display(title: Seq<char>, id: Seq<char>) -> Seq<char> {
    title + " (id: "@ + id + ")"@
}

impl OnePasswordItem {
    /// The item as shown in messages, `title (id: id)`.
    pub fn to_string(&self) -> (r: String)
        ensures
            r@ == item_display(self.title@, self.id@),
    {
        let mut r = self.title.clone();
        r.append(" (id: ");
        r.append(self.id.as_str());
        r.append(")");
        r
    }
}

/// The `fieldType` word of each kind that has one.
pub open spec fn field_type_word(t: ItemType) -> Seq<char> {
    match t {
        ItemType::Concealed => "password"@,
        ItemType::String => "text"@,
        ItemType::Email => "email"@,
        ItemType::Url => "url"@,
        ItemType::Date => "date"@,
        ItemType::MonthYear => "monthYear"@,
        ItemType::Phone => "phone"@,
        ItemType::Otp => "otp"@,
        ItemType::Menu => "menu"@,
        ItemType::Unknown(_) => Seq::empty(),
    }
}

/// The JSON text of each named kind.
pub open spec fn named_type_json(t: ItemType) -> Seq<char> {
    match t {
        ItemType::Concealed => "\"CONCEALED\""@,
        ItemType::String => "\"STRING\""@,
        ItemType::Email => "\"EMAIL\""@,
        ItemType::Url => "\"URL\""@,
        ItemType::Date => "\"DATE\""@,
        ItemType::MonthYear => "\"MONTH_YEAR\""@,
        ItemType::Phone => "\"PHONE\""@,
        ItemType::Otp => "\"OTP\""@,
        ItemType::Menu => "\"MENU\""@,
        ItemType::Unknown(raw) => raw@,
    }
}

/// Whether the text names one of the known kinds.
pub open spec fn is_named_type(text: Seq<char>) -> bool {
    text == "\"CONCEALED\""@ || text == "\"STRING\""@ || text == "\"EMAIL\""@ || text
        == "\"URL\""@ || text == "\"DATE\""@ || text == "\"MONTH_YEAR\""@ || text == "\"PHONE\""@
        || text == "\"OTP\""@ || text == "\"MENU\""@
}

impl ItemType {
    /// The kind that a field's `type` value names, given as JSON text; any
    /// other value is kept as it is.
    pub fn from_json(text: &str) -> (r: ItemType)
        ensures
            named_type_json(r) == text@,
            r is Unknown <==> !is_named_type(text@),
    {
        let t: String = text.to_owned();
        if t == "\"CONCEALED\"".to_owned() {
            ItemType::Concealed
        } else if t == "\"STRING\"".to_owned() {
            ItemType::String
        } else if t == "\"EMAIL\"".to_owned() {
            ItemType::Email
        } else if t == "\"URL\"".to_owned() {
            ItemType::Url
        } else if t == "\"DATE\"".to_owned() {
            ItemType::Date
        } else if t == "\"MONTH_YEAR\"".to_owned() {
            ItemType::MonthYear
        } else if t == "\"PHONE\"".to_owned() {
            ItemType::Phone
        } else if t == "\"OTP\"".to_owned() {
            ItemType::Otp
        } else if t == "\"MENU\"".to_owned() {
            ItemType::Menu
        } else {
            ItemType::Unknown(t)
        }
    }

    /// The `fieldType` can be used with assignment statements in CLI arguments.
    /// An unrecognised kind has none.
    pub fn field_type(&self) -> (r: &'static str)
        requires
            !(self is Unknown),
        ensures
            r@ == field_type_word(*self),
    {
        match self {
            ItemType::Concealed => "password",
            ItemType::String => "text",
            ItemType::Email => "email",
            ItemType::Url => "url",
            ItemType::Date => "date",
            ItemType::MonthYear => "monthYear",
            ItemType::Phone => "phone",
            ItemType::Otp => "otp",
            ItemType::Menu => "menu",
            ItemType::Unknown(_) => "",
        }
    }

    /// The `file` fieldType accepts the path to a file, and can only be used with assignment
    /// statements.
    pub fn file() -> (r: &'static str)
        ensures
            r@ == "file"@,
    {
        "file"
    }
}

} // verus!
