use vstd::prelude::*;
use crate::templates::{fields_view, FieldModel, ItemField, ItemType, Member, OnePasswordItem};

verus! {

pub open spec fn is_concealed(f: FieldModel) -> bool {
    f.item_type == ItemType::Concealed
}

pub open spec fn is_unsectioned(f: FieldModel) -> bool {
    is_concealed(f) && !(f.section is Given)
}

/// The conventional home of an API credential: an unsectioned concealed
/// field with id `credential`.
pub open spec fn is_primary(f: FieldModel) -> bool {
    is_unsectioned(f) && f.id == "credential"@
}

/// Whether `choice` is what the priority policy picks among `fs`: the first
/// primary field; else the first unsectioned concealed field; else the
/// first concealed field; none when no field is concealed.
pub open spec fn selects(fs: Seq<FieldModel>, choice: Option<int>) -> bool {
    match choice {
        Some(i) => 0 <= i < fs.len() && (if exists|j: int| 0 <= j < fs.len() && is_primary(#[trigger] fs[j]) {
            is_primary(fs[i]) && forall|j: int| 0 <= j < i ==> !is_primary(#[trigger] fs[j])
        } else if exists|j: int| 0 <= j < fs.len() && is_unsectioned(#[trigger] fs[j]) {
            is_unsectioned(fs[i]) && forall|j: int| 0 <= j < i ==> !is_unsectioned(#[trigger] fs[j])
        } else {
            is_concealed(fs[i]) && forall|j: int| 0 <= j < i ==> !is_concealed(#[trigger] fs[j])
        }),
        None => forall|j: int| 0 <= j < fs.len() ==> !is_concealed(#[trigger] fs[j]),
    }
}

/// Whenever some field is concealed, the policy picks a field, and that
/// field is concealed.
pub proof fn lemma_selects_concealed(fs: Seq<FieldModel>, choice: Option<int>)
    requires
        exists|j: int| 0 <= j < fs.len() && is_concealed(#[trigger] fs[j]),
        selects(fs, choice),
    ensures
        choice is Some,
        0 <= choice->0 < fs.len(),
        is_concealed(fs[choice->0]),
{
}

/// Whenever an unsectioned concealed field with id `credential` exists, the
/// policy picks such a field, wherever other concealed fields stand.
pub proof fn lemma_selects_primary(fs: Seq<FieldModel>, choice: Option<int>)
    requires
        exists|j: int| 0 <= j < fs.len() && is_primary(#[trigger] fs[j]),
        selects(fs, choice),
    ensures
        choice is Some,
        0 <= choice->0 < fs.len(),
        fs[choice->0].id == "credential"@,
        !(fs[choice->0].section is Given),
        is_concealed(fs[choice->0]),
{
}

/// The policy picks at most one field.
pub proof fn lemma_selects_unique(fs: Seq<FieldModel>, a: Option<int>, b: Option<int>)
    requires
        selects(fs, a),
        selects(fs, b),
    ensures
        a == b,
{
}

/// Why an item gets no new value.
#[derive(Copy, Clone, Debug, PartialEq, Eq, Structural)]
pub enum SkipReason {
    /// The item has no field list at all.
    NoFields,
    /// No field of the item is concealed.
    NoConcealedField,
}

fn is_credential_id(id: &String) -> (r: bool)
    ensures
        r == (id@ == "credential"@),
{
    let key: String = "credential".to_owned();
    *id == key
}

/// The first field of `fields` that satisfies the rule of the given rank:
/// 0 primary, 1 unsectioned concealed, 2 concealed.
fn first_of_rank(fields: &Vec<ItemField>, rank: u8) -> (r: Option<usize>)
    requires
        rank <= 2,
    ensures
        ({
            let fs = fields_view(fields@);
            let p = |f: FieldModel|
                if rank == 0 {
                    is_primary(f)
                } else if rank == 1 {
                    is_unsectioned(f)
                } else {
                    is_concealed(f)
                };
            match r {
                Some(i) => i < fs.len() && p(fs[i as int]) && forall|j: int|
                    0 <= j < i ==> !p(#[trigger] fs[j]),
                None => forall|j: int| 0 <= j < fs.len() ==> !p(#[trigger] fs[j]),
            }
        }),
{
    let ghost fs = fields_view(fields@);
    let ghost p = |f: FieldModel|
        if rank == 0 {
            is_primary(f)
        } else if rank == 1 {
            is_unsectioned(f)
        } else {
            is_concealed(f)
        };
    let mut i: usize = 0;
    while i < fields.len()
        invariant
            fs == fields_view(fields@),
            rank <= 2,
            p == (|f: FieldModel|
                if rank == 0 {
                    is_primary(f)
                } else if rank == 1 {
                    is_unsectioned(f)
                } else {
                    is_concealed(f)
                }),
            i <= fields@.len(),
            forall|j: int| 0 <= j < i ==> !p(#[trigger] fs[j]),
        decreases fields@.len() - i,
    {
        let f = &fields[i];
        let concealed = match &f.item_type {
            ItemType::Concealed => true,
            _ => false,
        };
        let in_section = match &f.section {
            Member::Given(_) => true,
            _ => false,
        };
        let hit = if concealed {
            if rank == 2 {
                true
            } else if in_section {
                false
            } else if rank == 1 {
                true
            } else {
                is_credential_id(&f.id)
            }
        } else {
            false
        };
        assert(fs[i as int] == f@);
        if hit {
            return Some(i);
        }
        i = i + 1;
    }
    None
}

/// The position of the field that receives a new value, by the priority
/// policy of `selects`.
pub fn select_field(fields: &Vec<ItemField>) -> (r: Option<usize>)
    ensures
        selects(
            fields_view(fields@),
            match r {
                Some(i) => Some(i as int),
                None => None,
            },
        ),
{
    match first_of_rank(fields, 0) {
        Some(i) => Some(i),
        None => match first_of_rank(fields, 1) {
            Some(i) => Some(i),
            None => first_of_rank(fields, 2),
        },
    }
}

/// The id of the field of `item` that receives a new value, or why there is none.
pub fn select(item: &OnePasswordItem) -> (r: Result<String, SkipReason>)
    ensures
        !(item@.fields is Given) ==> r == Err::<String, SkipReason>(SkipReason::NoFields),
        item@.fields is Given ==> exists|c: Option<int>|
            #[trigger] selects(item@.fields->Given_0, c) && match c {
                Some(i) => r is Ok && r->Ok_0@ == item@.fields->Given_0[i].id,
                None => r == Err::<String, SkipReason>(SkipReason::NoConcealedField),
            },
{
    match &item.fields {
        Member::Absent | Member::Null => Err(SkipReason::NoFields),
        Member::Given(fields) => {
            let choice = select_field(fields);
            match choice {
                Some(i) => {
                    let id = fields[i].id.clone();
                    assert(selects(fields_view(fields@), Some(i as int)));
                    assert(id@ == fields_view(fields@)[i as int].id);
                    let r: Result<String, SkipReason> = Ok(id);
                    assert(item@.fields == Member::Given(fields_view(fields@)));
                    let ghost c = Some(i as int);
                    assert(selects(item@.fields->Given_0, c) && match c {
                        Some(k) => r is Ok && r->Ok_0@ == item@.fields->Given_0[k].id,
                        None => r == Err::<String, SkipReason>(SkipReason::NoConcealedField),
                    });
                    r
                },
                None => {
                    let r: Result<String, SkipReason> = Err(SkipReason::NoConcealedField);
                    assert(item@.fields == Member::Given(fields_view(fields@)));
                    let ghost c: Option<int> = None;
                    assert(selects(item@.fields->Given_0, c) && match c {
                        Some(k) => r is Ok && r->Ok_0@ == item@.fields->Given_0[k].id,
                        None => r == Err::<String, SkipReason>(SkipReason::NoConcealedField),
                    });
                    r
                },
            }
        },
    }
}

} // verus!
