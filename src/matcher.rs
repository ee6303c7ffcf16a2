use vstd::prelude::*;
use crate::templates::OnePasswordListItem;
use crate::text::{chars_of, contains_chars, lower_of, lowercase, seq_contains};

verus! {

/// The text is the lower-case form of some text.
pub open spec fn is_lowered(s: Seq<char>) -> bool {
    exists|t: Seq<char>| #[trigger] lower_of(t) == s
}

/// A vault listing whose titles are all lower-cased, searched by title.
pub struct VaultIndex {
    pub items: Vec<OnePasswordListItem>,
}

/// The text searched for in titles: `"{issuer} {credential}"`.
pub open spec fn token_of(issuer: Seq<char>, cred: Seq<char>) -> Seq<char> {
    issuer + seq![' '] + cred
}

/// The first position of `titles` whose title contains `token`, if any.
pub open spec fn first_match(titles: Seq<Seq<char>>, token: Seq<char>) -> Option<int>
    decreases titles.len(),
{
    if titles.len() == 0 {
        None
    } else {
        match first_match(titles.drop_last(), token) {
            Some(i) => Some(i),
            None => if seq_contains(titles.last(), token) {
                Some(titles.len() - 1)
            } else {
                None
            },
        }
    }
}

pub open spec fn titles_of(items: Seq<OnePasswordListItem>) -> Seq<Seq<char>> {
    items.map_values(|x: OnePasswordListItem| x.title@)
}

/// `first_match` gives the least position whose title contains the token.
pub proof fn lemma_first_match(titles: Seq<Seq<char>>, token: Seq<char>)
    ensures
        match first_match(titles, token) {
            Some(i) => 0 <= i < titles.len() && seq_contains(titles[i], token) && forall|j: int|
                0 <= j < i ==> !seq_contains(#[trigger] titles[j], token),
            None => forall|j: int| 0 <= j < titles.len() ==> !seq_contains(#[trigger] titles[j], token),
        },
    decreases titles.len(),
{
    if titles.len() > 0 {
        lemma_first_match(titles.drop_last(), token);
        assert forall|j: int| 0 <= j < titles.len() - 1 implies titles.drop_last()[j] == titles[j] by {}
    }
}

impl VaultIndex {
    /// Every title is the lower-case form of some text.
    pub open spec fn wf(&self) -> bool {
        forall|i: int| 0 <= i < self.items@.len() ==> is_lowered(#[trigger] self.items@[i].title@)
    }

    /// Builds the index from a listing: each title lower-cased, nothing else changed.
    pub fn new(list: Vec<OnePasswordListItem>) -> (r: VaultIndex)
        ensures
            r.wf(),
            r.items@.len() == list@.len(),
            forall|i: int|
                0 <= i < list@.len() ==> (#[trigger] r.items@[i]).id@ == list@[i].id@
                    && r.items@[i].title@ == lower_of(list@[i].title@),
    {
        let mut items: Vec<OnePasswordListItem> = Vec::new();
        let mut i: usize = 0;
        while i < list.len()
            invariant
                i <= list@.len(),
                items@.len() == i,
                forall|k: int|
                    0 <= k < i ==> (#[trigger] items@[k]).id@ == list@[k].id@ && items@[k].title@
                        == lower_of(list@[k].title@),
            decreases list@.len() - i,
        {
            let entry = &list[i];
            items.push(OnePasswordListItem { id: entry.id.clone(), title: lowercase(entry.title.as_str()) });
            i = i + 1;
        }
        let r = VaultIndex { items };
        assert forall|i: int| 0 <= i < r.items@.len() implies is_lowered(
            #[trigger] r.items@[i].title@,
        ) by {
            let t = list@[i].title@;
            assert(r.items@[i].title@ == lower_of(t));
        }
        assert(r.wf());
        r
    }

    /// The position of the first item whose title contains `token`.
    pub fn find_first(&self, token: &str) -> (r: Option<usize>)
        requires
            self.wf(),
        ensures
            match first_match(titles_of(self.items@), token@) {
                Some(i) => r is Some && r->0 as int == i,
                None => r is None,
            },
    {
        let needle = chars_of(token);
        let mut i: usize = 0;
        while i < self.items.len()
            invariant
                i <= self.items@.len(),
                needle@ == token@,
                first_match(titles_of(self.items@).take(i as int), token@) is None,
            decreases self.items@.len() - i,
        {
            let hay = chars_of(self.items[i].title.as_str());
            let found = contains_chars(&hay, &needle);
            assert(titles_of(self.items@).take(i + 1).drop_last() =~= titles_of(self.items@).take(i as int));
            if found {
                proof {
                    let t = titles_of(self.items@);
                    lemma_first_match(t, token@);
                    lemma_first_match(t.take(i as int), token@);
                    assert(seq_contains(t[i as int], token@));
                    assert forall|j: int| 0 <= j < i implies !seq_contains(#[trigger] t[j], token@) by {
                        assert(t.take(i as int)[j] == t[j]);
                    }
                }
                return Some(i);
            }
            i = i + 1;
        }
        assert(titles_of(self.items@).take(i as int) =~= titles_of(self.items@));
        None
    }

    /// The first summary (in listing order) whose lower-cased title contains
    /// `"{lower(issuer)} {lower(credential)}"`; `None` when there is none.
    pub fn resolve(&self, issuer_name: &str, credential_name: &str) -> (r: Option<
        OnePasswordListItem,
    >)
        requires
            self.wf(),
        ensures
            match first_match(
                titles_of(self.items@),
                token_of(lower_of(issuer_name@), lower_of(credential_name@)),
            ) {
                Some(i) => r is Some && r->0.id@ == self.items@[i].id@ && r->0.title@
                    == self.items@[i].title@,
                None => r is None,
            },
    {
        let issuer = lowercase(issuer_name);
        let cred = lowercase(credential_name);
        let token = search_token(&issuer, &cred);
        match self.find_first(token.as_str()) {
            Some(i) => {
                proof {
                    lemma_first_match(titles_of(self.items@), token@);
                    assert(first_match(titles_of(self.items@), token@) == Some(i as int));
                }
                let item = &self.items[i];
                Some(OnePasswordListItem { id: item.id.clone(), title: item.title.clone() })
            },
            None => None,
        }
    }
}

/// Joins an issuer and a credential name into the text searched for.
pub fn search_token(issuer: &String, cred: &String) -> (r: String)
    ensures
        r@ == token_of(issuer@, cred@),
{
    let mut r = issuer.clone();
    r.append(" ");
    r.append(cred.as_str());
    proof {
        reveal_strlit(" ");
    }
    assert(r@ =~= token_of(issuer@, cred@));
    r
}

} // verus!
