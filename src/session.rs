use vstd::prelude::*;
use crate::matcher::{first_match, titles_of, token_of, VaultIndex};
use crate::templates::{Cred, Creds, CredsIssuer, OnePasswordListItem};
use crate::text::{lower_of, lowercase};

verus! {

/// Walks a credential batch, issuer by issuer and credential by credential,
/// and matches each credential to a vault summary. Fetching the item of a
/// match is left to the caller.
pub struct CredJsonIter {
    pub vault_name: String,
    pub index: VaultIndex,
    pub issuers: Vec<CredsIssuer>,
    /// How many issuer groups have begun.
    pub issuer_pos: usize,
    /// How many credentials of the current issuer have been handed out.
    pub cred_pos: usize,
    /// The current issuer's name, lower-cased.
    pub issuer_name: String,
}

/// What the walk yields at each step.
pub enum Step {
    /// A new issuer group begins, named here lower-cased.
    Issuer(String),
    /// No vault summary matched the credential: a warning to print.
    NotFound(String),
    /// The credential matched this summary; its item is to be fetched.
    Found(OnePasswordListItem, Cred),
    /// Every credential has been handed out.
    Done,
}

/// The batch holds no issuer group.
#[derive(Copy, Clone, Debug, PartialEq, Eq, Structural)]
pub struct NoIssuers;

pub open spec fn not_found_warning(issuer: Seq<char>, cred: Seq<char>, vault: Seq<char>) -> Seq<char> {
    "warn: {issuer="@ + issuer + ",cred="@ + cred + "} not found in vault "@ + vault + ", skipping"@
}

impl CredJsonIter {
    pub open spec fn wf(&self) -> bool {
        &&& self.index.wf()
        &&& self.issuer_pos <= self.issuers@.len()
        &&& self.issuer_pos == 0 ==> self.cred_pos == 0
        &&& self.issuer_pos > 0 ==> {
            &&& self.cred_pos <= self.issuers@[self.issuer_pos - 1].credentials@.len()
            &&& self.issuer_name@ == lower_of(self.issuers@[self.issuer_pos - 1].issuer@)
        }
    }

    /// Whether the current issuer still has a credential to hand out.
    pub open spec fn has_cred(&self) -> bool {
        self.issuer_pos > 0 && self.cred_pos < self.issuers@[self.issuer_pos - 1].credentials@.len()
    }

    pub open spec fn current_issuer(&self) -> CredsIssuer {
        self.issuers@[self.issuer_pos - 1]
    }

    /// The next step of the walk: the next credential of the current issuer,
    /// matched against the index; else the start of the next issuer group;
    /// else `Done`.
    pub fn next(&mut self) -> (r: Step)
        requires
            old(self).wf(),
        ensures
            final(self).wf(),
            final(self).vault_name == old(self).vault_name,
            final(self).index == old(self).index,
            final(self).issuers == old(self).issuers,
            old(self).has_cred() ==> {
                let c = old(self).current_issuer().credentials@[old(self).cred_pos as int];
                &&& final(self).issuer_pos == old(self).issuer_pos
                &&& final(self).cred_pos == old(self).cred_pos + 1
                &&& match first_match(
                    titles_of(old(self).index.items@),
                    token_of(lower_of(old(self).current_issuer().issuer@), lower_of(c.name@)),
                ) {
                    Some(i) => r matches Step::Found(s, cr) && s.id@ == old(self).index.items@[i].id@
                        && s.title@ == old(self).index.items@[i].title@ && cr.name@ == c.name@
                        && cr.value@ == c.value@,
                    None => r matches Step::NotFound(w) && w@ == not_found_warning(
                        lower_of(old(self).current_issuer().issuer@),
                        lower_of(c.name@),
                        old(self).vault_name@,
                    ),
                }
            },
            !old(self).has_cred() && old(self).issuer_pos < old(self).issuers@.len() ==> {
                &&& final(self).issuer_pos == old(self).issuer_pos + 1
                &&& final(self).cred_pos == 0
                &&& r matches Step::Issuer(n) && n@ == lower_of(
                    old(self).issuers@[old(self).issuer_pos as int].issuer@,
                )
            },
            !old(self).has_cred() && old(self).issuer_pos == old(self).issuers@.len() ==> {
                &&& r is Done
                &&& *final(self) == *old(self)
            },
    {
        if self.issuer_pos > 0 && self.cred_pos < self.issuers[self.issuer_pos - 1].credentials.len() {
            let group = &self.issuers[self.issuer_pos - 1];
            let c = &group.credentials[self.cred_pos];
            let cred = Cred { name: c.name.clone(), value: c.value.clone() };
            let found = self.index.resolve(group.issuer.as_str(), c.name.as_str());
            let step = match found {
                Some(summary) => Step::Found(summary, cred),
                None => {
                    let cred_name = lowercase(cred.name.as_str());
                    let mut w: String = "warn: {issuer=".to_owned();
                    w.append(self.issuer_name.as_str());
                    w.append(",cred=");
                    w.append(cred_name.as_str());
                    w.append("} not found in vault ");
                    w.append(self.vault_name.as_str());
                    w.append(", skipping");
                    Step::NotFound(w)
                },
            };
            self.cred_pos = self.cred_pos + 1;
            step
        } else if self.issuer_pos < self.issuers.len() {
            let name = lowercase(self.issuers[self.issuer_pos].issuer.as_str());
            self.issuer_name = name.clone();
            self.issuer_pos = self.issuer_pos + 1;
            self.cred_pos = 0;
            Step::Issuer(name)
        } else {
            Step::Done
        }
    }
}

impl Creds {
    /// Starts the walk over this batch against a vault listing, whose titles
    /// are lower-cased for the search. A batch without issuers is refused.
    pub fn iter_templates(self, vault_name: &str, listing: Vec<OnePasswordListItem>) -> (r: Result<
        CredJsonIter,
        NoIssuers,
    >)
        ensures
            self.issuers@.len() == 0 <==> r is Err,
            r is Ok ==> {
                let it = r->Ok_0;
                &&& it.wf()
                &&& it.issuers == self.issuers
                &&& it.issuer_pos == 0
                &&& it.vault_name@ == vault_name@
                &&& it.index.items@.len() == listing@.len()
                &&& forall|i: int|
                    0 <= i < listing@.len() ==> (#[trigger] it.index.items@[i]).id@ == listing@[i].id@
                        && it.index.items@[i].title@ == lower_of(listing@[i].title@)
            },
    {
        if self.issuers.len() == 0 {
            return Err(NoIssuers);
        }
        let index = VaultIndex::new(listing);
        assert(index.wf());
        Ok(
            CredJsonIter {
                vault_name: vault_name.to_owned(),
                index,
                issuers: self.issuers,
                issuer_pos: 0,
                cred_pos: 0,
                issuer_name: String::new(),
            },
        )
    }
}

} // verus!
