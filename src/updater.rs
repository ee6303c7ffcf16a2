use vstd::prelude::*;
use crate::json::{
    attr_json, attrs_json, field_json, field_members_json, fields_json, item_head_json, item_json,
    item_members_json, joined, serialize,
};
use crate::selector::{select, selects, SkipReason};
use crate::templates::{
    fields_view, item_display, AttrModel, Cred, FieldModel, ItemField, ItemModel, Member,
    OnePasswordItem,
};
use crate::text::seq_contains;

verus! {

pub open spec fn with_value(f: FieldModel, v: Seq<char>) -> FieldModel {
    FieldModel { value: Member::Given(v), ..f }
}

/// `i` is the first position of `fs` whose field has the id `id`.
pub open spec fn first_with_id(fs: Seq<FieldModel>, id: Seq<char>, i: int) -> bool {
    0 <= i < fs.len() && fs[i].id == id && forall|j: int| 0 <= j < i ==> (#[trigger] fs[j]).id != id
}

/// The fields with the value of the first one whose id is `id` replaced.
pub open spec fn fields_applied(fs: Seq<FieldModel>, id: Seq<char>, v: Seq<char>) -> Seq<FieldModel> {
    fs.map(|j: int, f: FieldModel| if first_with_id(fs, id, j) { with_value(f, v) } else { f })
}

/// The item with the new value placed in the field with id `id`; every other
/// part unchanged.
pub open spec fn applied(m: ItemModel, id: Seq<char>, v: Seq<char>) -> ItemModel {
    ItemModel {
        fields: match m.fields {
            Member::Given(fs) => Member::Given(fields_applied(fs, id, v)),
            Member::Null => Member::Null,
            Member::Absent => Member::Absent,
        },
        ..m
    }
}

/// The position of the first field whose id is `id`.
pub fn position_of(fields: &Vec<ItemField>, id: &String) -> (r: Option<usize>)
    ensures
        match r {
            Some(i) => first_with_id(fields_view(fields@), id@, i as int),
            None => forall|j: int|
                0 <= j < fields@.len() ==> (#[trigger] fields_view(fields@)[j]).id != id@,
        },
{
    let ghost fs = fields_view(fields@);
    let mut i: usize = 0;
    while i < fields.len()
        invariant
            fs == fields_view(fields@),
            i <= fields@.len(),
            forall|j: int| 0 <= j < i ==> (#[trigger] fs[j]).id != id@,
        decreases fields@.len() - i,
    {
        if fields[i].id == *id {
            return Some(i);
        }
        i = i + 1;
    }
    None
}

/// Places `value` in the first field of `item` whose id is `field_id`.
pub fn apply(item: OnePasswordItem, field_id: &String, value: String) -> (r: OnePasswordItem)
    ensures
        r@ == applied(item@, field_id@, value@),
{
    let ghost m = item@;
    let OnePasswordItem { id, title, category, sections, fields, extra } = item;
    let fields = match fields {
        Member::Absent => Member::Absent,
        Member::Null => Member::Null,
        Member::Given(mut fs) => {
            let ghost old_fs = fields_view(fs@);
            let at = position_of(&fs, field_id);
            if let Some(i) = at {
                let mut f = fs.remove(i);
                f.value = Member::Given(value);
                fs.insert(i, f);
                assert forall|j: int| 0 <= j < old_fs.len() && j != i implies !first_with_id(
                    old_fs,
                    field_id@,
                    j,
                ) by {
                    if j > i {
                        assert(old_fs[i as int].id == field_id@);
                    }
                }
                assert(fields_view(fs@) =~= fields_applied(old_fs, field_id@, value@));
            } else {
                assert(fields_view(fs@) =~= fields_applied(old_fs, field_id@, value@));
            }
            Member::Given(fs)
        },
    };
    let r = OnePasswordItem { id, title, category, sections, fields, extra };
    assert(r@ =~= applied(m, field_id@, value@));
    r
}

/// Applying the same value twice gives the item that applying it once
/// gives, so both serialize to the same text.
pub proof fn lemma_apply_idempotent(m: ItemModel, id: Seq<char>, v: Seq<char>)
    ensures
        applied(applied(m, id, v), id, v) == applied(m, id, v),
        item_json(applied(applied(m, id, v), id, v)) == item_json(applied(m, id, v)),
{
    if m.fields is Given {
        let fs = m.fields->Given_0;
        let once = fields_applied(fs, id, v);
        assert forall|k: int| 0 <= k < fs.len() implies (#[trigger] once[k]).id == fs[k].id by {}
        assert forall|j: int| 0 <= j < fs.len() implies first_with_id(once, id, j) == first_with_id(
            fs,
            id,
            j,
        ) by {
            if first_with_id(fs, id, j) {
                assert forall|k: int| 0 <= k < j implies (#[trigger] once[k]).id != id by {
                    assert(once[k].id == fs[k].id);
                }
            }
            if first_with_id(once, id, j) {
                assert forall|k: int| 0 <= k < j implies (#[trigger] fs[k]).id != id by {
                    assert(once[k].id == fs[k].id);
                }
            }
        }
        assert(fields_applied(once, id, v) =~= once);
    }
}

/// Every attribute that the item schema does not model stays as it was:
/// those of the item itself, which also appear key and value in its text,
/// and those of its sections and fields.
pub proof fn lemma_apply_passthrough(m: ItemModel, id: Seq<char>, v: Seq<char>, k: int)
    requires
        0 <= k < m.extra.len(),
    ensures
        applied(m, id, v).extra == m.extra,
        applied(m, id, v).sections == m.sections,
        m.fields is Given ==> forall|j: int|
            0 <= j < m.fields->Given_0.len() ==> (#[trigger] applied(m, id, v).fields->Given_0[j]).extra
                == m.fields->Given_0[j].extra && applied(m, id, v).fields->Given_0[j].section
                == m.fields->Given_0[j].section,
        seq_contains(item_json(applied(m, id, v)), attr_json(m.extra[k])),
{
    let a = applied(m, id, v);
    lemma_attrs_contain(m.extra, k);
    lemma_contains_within(item_members_json(a), attrs_json(a.extra), "}"@, attr_json(m.extra[k]));
}

/// Every attribute that the item schema does not model on a field also
/// appears, key and value, in the text of the item with the new value.
pub proof fn lemma_apply_field_passthrough(
    m: ItemModel,
    id: Seq<char>,
    v: Seq<char>,
    j: int,
    k: int,
)
    requires
        m.fields is Given,
        0 <= j < m.fields->Given_0.len(),
        0 <= k < m.fields->Given_0[j].extra.len(),
    ensures
        seq_contains(item_json(applied(m, id, v)), attr_json(m.fields->Given_0[j].extra[k])),
{
    let a = applied(m, id, v);
    let fs = a.fields->Given_0;
    let n = attr_json(m.fields->Given_0[j].extra[k]);
    assert(fs[j].extra == m.fields->Given_0[j].extra);
    lemma_attrs_contain(fs[j].extra, k);
    lemma_contains_within(field_members_json(fs[j]), attrs_json(fs[j].extra), "}"@, n);
    let parts = fs.map_values(|x: FieldModel| field_json(x));
    lemma_joined_contains(parts, j);
    lemma_contains_trans(joined(parts), field_json(fs[j]), n);
    lemma_contains_within("["@, joined(parts), "]"@, n);
    let rest = attrs_json(a.extra) + "}"@;
    let head = item_head_json(a) + ",\"fields\":"@;
    assert(item_json(a) =~= head + fields_json(fs) + rest);
    lemma_contains_within(head, fields_json(fs), rest, n);
}

proof fn lemma_contains_self(n: Seq<char>)
    ensures
        seq_contains(n, n),
{
    assert(n.subrange(0, 0 + n.len() as int) =~= n);
}

proof fn lemma_contains_trans(x: Seq<char>, y: Seq<char>, n: Seq<char>)
    requires
        seq_contains(x, y),
        seq_contains(y, n),
    ensures
        seq_contains(x, n),
{
    let i = choose|i: int| 0 <= i && i + y.len() <= x.len() && #[trigger] x.subrange(i, i + y.len()) == y;
    let p = choose|p: int| 0 <= p && p + n.len() <= y.len() && #[trigger] y.subrange(p, p + n.len()) == n;
    assert(x.subrange(i + p, i + p + n.len()) =~= y.subrange(p, p + n.len()));
}

proof fn lemma_joined_contains(parts: Seq<Seq<char>>, j: int)
    requires
        0 <= j < parts.len(),
    ensures
        seq_contains(joined(parts), parts[j]),
    decreases parts.len(),
{
    let n = parts[j];
    lemma_contains_self(n);
    if parts.len() > 1 {
        let pre = joined(parts.drop_last());
        if j == parts.len() - 1 {
            lemma_contains_within(pre + ","@, n, Seq::empty(), n);
            assert(pre + ","@ + n + Seq::<char>::empty() =~= joined(parts));
        } else {
            lemma_joined_contains(parts.drop_last(), j);
            assert(parts.drop_last()[j] == n);
            lemma_contains_within(Seq::empty(), pre, ","@ + parts.last(), n);
            assert(Seq::<char>::empty() + pre + (","@ + parts.last()) =~= joined(parts));
        }
    }
}

proof fn lemma_contains_within(x: Seq<char>, y: Seq<char>, z: Seq<char>, n: Seq<char>)
    requires
        seq_contains(y, n),
    ensures
        seq_contains(x + y + z, n),
{
    let i = choose|i: int| 0 <= i && i + n.len() <= y.len() && #[trigger] y.subrange(i, i + n.len()) == n;
    let w = x + y + z;
    assert(w.subrange(x.len() + i, x.len() + i + n.len()) =~= y.subrange(i, i + n.len()));
}

proof fn lemma_attrs_contain(a: Seq<AttrModel>, k: int)
    requires
        0 <= k < a.len(),
    ensures
        seq_contains(attrs_json(a), attr_json(a[k])),
    decreases a.len(),
{
    let pre = attrs_json(a.drop_last());
    let n = attr_json(a[k]);
    if k == a.len() - 1 {
        assert((pre + n).subrange(pre.len() as int, (pre.len() + n.len()) as int) =~= n);
    } else {
        lemma_attrs_contain(a.drop_last(), k);
        assert(a.drop_last()[k] == a[k]);
        lemma_contains_within(Seq::empty(), pre, attr_json(a.last()), n);
        assert(Seq::<char>::empty() + pre + attr_json(a.last()) =~= attrs_json(a));
    }
}

/// The line printed once a value was placed.
pub open spec fn report_line(cred: Seq<char>, label: Seq<char>, item: Seq<char>) -> Seq<char> {
    "placed credential \""@ + cred + "\" into field \""@ + label + "\" of vault item "@ + item
}

pub open spec fn no_fields_warning(item: Seq<char>) -> Seq<char> {
    "warn: item "@ + item + " has no fields, skipping"@
}

pub open spec fn no_field_warning(item: Seq<char>) -> Seq<char> {
    "unable to find credential field in item "@ + item
}

/// The name shown for the field with id `id`: the label of the first such
/// field when it has one, else the id.
pub open spec fn shown_label(fs: Seq<FieldModel>, id: Seq<char>) -> Seq<char> {
    if exists|i: int| first_with_id(fs, id, i) {
        let i = choose|i: int| first_with_id(fs, id, i);
        match fs[i].label {
            Member::Given(l) => l,
            _ => id,
        }
    } else {
        id
    }
}

/// What to do for one credential and its fetched item.
pub enum UpdateAction {
    /// Submit `payload` as the new content of item `id`, then print `report`.
    Submit { id: String, payload: String, report: String },
    /// Simulate mode: the payload is made and `report` printed; nothing is submitted.
    Simulate { payload: String, report: String },
    /// Print `warning` to the error stream and go on with the next credential.
    Skip { reason: SkipReason, warning: String },
}

/// The payload and the report of an action that places a value.
pub open spec fn placed(a: UpdateAction) -> Option<(Seq<char>, Seq<char>)> {
    match a {
        UpdateAction::Submit { payload, report, .. } => Some((payload@, report@)),
        UpdateAction::Simulate { payload, report } => Some((payload@, report@)),
        UpdateAction::Skip { .. } => None,
    }
}

/// `a` places the new value in the field with id `fid`.
pub open spec fn applied_action(
    m: ItemModel,
    fid: Seq<char>,
    cred: Cred,
    simulate: bool,
    a: UpdateAction,
) -> bool {
    let m2 = applied(m, fid, cred.value@);
    let label = shown_label(m2.fields->Given_0, fid);
    let report = report_line(cred.name@, label, item_display(m.title, m.id));
    if simulate {
        a matches UpdateAction::Simulate { payload, report: rp } && payload@ == item_json(m2)
            && rp@ == report
    } else {
        a matches UpdateAction::Submit { id, payload, report: rp } && id@ == m.id && payload@
            == item_json(m2) && rp@ == report
    }
}

/// `r` is the plan for the item `m`, whose fields are present and among
/// which the policy chose `c`.
pub open spec fn plan_for(
    m: ItemModel,
    cred: Cred,
    simulate: bool,
    r: UpdateAction,
    c: Option<int>,
) -> bool {
    match c {
        None => r matches UpdateAction::Skip { reason, warning } && reason
            == SkipReason::NoConcealedField && warning@ == no_field_warning(
            item_display(m.title, m.id),
        ),
        Some(i) => applied_action(m, m.fields->Given_0[i].id, cred, simulate, r),
    }
}

/// `r` is the plan for the item `m` and the credential `cred`.
pub open spec fn plans(
    m: ItemModel,
    cred: Cred,
    simulate: bool,
    r: UpdateAction,
) -> bool {
    match m.fields {
        Member::Given(fs) => exists|c: Option<int>|
            #[trigger] selects(fs, c) && plan_for(m, cred, simulate, r, c),
        _ => r matches UpdateAction::Skip { reason, warning } && reason == SkipReason::NoFields
            && warning@ == no_fields_warning(item_display(m.title, m.id)),
    }
}

/// The label of the first field with id `id`, or the id itself.
pub fn field_label(fields: &Vec<ItemField>, id: &String) -> (r: String)
    ensures
        r@ == shown_label(fields_view(fields@), id@),
{
    let ghost fs = fields_view(fields@);
    match position_of(fields, id) {
        Some(i) => {
            proof {
                let k = choose|k: int| first_with_id(fs, id@, k);
                if k < i {
                    assert(fs[k].id == id@);
                } else if i < k {
                    assert(fs[i as int].id == id@);
                }
            }
            match &fields[i].label {
                Member::Given(l) => l.clone(),
                _ => id.clone(),
            }
        },
        None => id.clone(),
    }
}

/// Decides what to do with a fetched item for a credential: pick the field,
/// place the value, serialize the item and word the report. In simulate
/// mode the plan submits nothing.
pub fn plan_update(item: OnePasswordItem, cred: &Cred, simulate: bool) -> (r: UpdateAction)
    ensures
        plans(item@, *cred, simulate, r),
{
    let ghost m = item@;
    let display = item.to_string();
    let fid = match select(&item) {
        Err(SkipReason::NoFields) => {
            let mut warning: String = "warn: item ".to_owned();
            warning.append(display.as_str());
            warning.append(" has no fields, skipping");
            return UpdateAction::Skip { reason: SkipReason::NoFields, warning };
        },
        Err(SkipReason::NoConcealedField) => {
            let mut warning: String = "unable to find credential field in item ".to_owned();
            warning.append(display.as_str());
            return UpdateAction::Skip { reason: SkipReason::NoConcealedField, warning };
        },
        Ok(fid) => fid,
    };
    let ghost c = choose|c: Option<int>| #[trigger] selects(m.fields->Given_0, c) && match c {
        Some(i) => fid@ == m.fields->Given_0[i].id,
        None => false,
    };
    let updated = apply(item, &fid, cred.value.clone());
    let label = match &updated.fields {
        Member::Given(fields) => field_label(fields, &fid),
        _ => fid.clone(),
    };
    let payload = serialize(&updated);
    let mut report: String = "placed credential \"".to_owned();
    report.append(cred.name.as_str());
    report.append("\" into field \"");
    report.append(label.as_str());
    report.append("\" of vault item ");
    report.append(display.as_str());
    let action = if simulate {
        UpdateAction::Simulate { payload, report }
    } else {
        UpdateAction::Submit { id: updated.id.clone(), payload, report }
    };
    let r = action;
    assert(selects(m.fields->Given_0, c) && plan_for(m, *cred, simulate, r, c));
    r
}

/// In simulate mode no plan submits anything, and where a value is placed
/// the payload and the report are those of the plan without simulate mode.
pub proof fn lemma_simulate_never_submits(
    m: ItemModel,
    cred: Cred,
    sim: UpdateAction,
    live: UpdateAction,
)
    requires
        plans(m, cred, true, sim),
        plans(m, cred, false, live),
    ensures
        !(sim is Submit),
        placed(sim) == placed(live),
{
    if let Member::Given(fs) = m.fields {
        let c1 = choose|c: Option<int>| #[trigger] selects(fs, c) && plan_for(m, cred, true, sim, c);
        let c2 = choose|c: Option<int>| #[trigger] selects(fs, c) && plan_for(m, cred, false, live, c);
        crate::selector::lemma_selects_unique(fs, c1, c2);
    }
}

} // verus!
