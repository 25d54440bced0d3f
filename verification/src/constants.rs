//! The fixed wording of billing events.

use vstd::prelude::*;

verus! {

/// One spelling under which a realm may be claimed, and the realm that it stands for.
pub struct RealmAlias {
    pub spelling: String,
    pub realm: String,
}

/// The wording that all events of a deployment share, and the realms that can be billed.
pub struct BillingCatalog {
    pub category: String,
    pub event_type: String,
    pub unit_of_measure: String,
    /// Every accepted spelling of every realm. Of two entries with one spelling the first counts.
    pub realms: Vec<RealmAlias>,
}

pub struct CatalogView {
    pub category: Seq<char>,
    pub event_type: Seq<char>,
    pub unit_of_measure: Seq<char>,
    /// Spelling and realm, in the order of the catalog.
    pub realms: Seq<(Seq<char>, Seq<char>)>,
}

impl View for BillingCatalog {
    type V = CatalogView;

    open spec fn view(&self) -> CatalogView {
        CatalogView {
            category: self.category@,
            event_type: self.event_type@,
            unit_of_measure: self.unit_of_measure@,
            realms: self.realms@.map_values(|a: RealmAlias| (a.spelling@, a.realm@)),
        }
    }
}

impl CatalogView {
    /// Entry `i` is the one that counts for the spelling `raw`.
    pub open spec fn resolves_at(self, raw: Seq<char>, i: int) -> bool {
        &&& 0 <= i < self.realms.len()
        &&& self.realms[i].0 == raw
        &&& forall|j: int| 0 <= j < i ==> (#[trigger] self.realms[j]).0 != raw
    }

    /// The realm that `raw` is a spelling of, if it is one.
    pub open spec fn normalize_realm(self, raw: Seq<char>) -> Option<Seq<char>> {
        if exists|i: int| self.resolves_at(raw, i) {
            Some(self.realms[choose|i: int| self.resolves_at(raw, i)].1)
        } else {
            None
        }
    }

    /// `raw` resolves exactly where the catalog holds it as a spelling, and to the realm of the
    /// first entry with that spelling.
    pub proof fn normalize_realm_is_first_match(self, raw: Seq<char>)
        ensures
            self.normalize_realm(raw) is Some <==> exists|i: int|
                0 <= i < self.realms.len() && (#[trigger] self.realms[i]).0 == raw,
            forall|i: int| #[trigger]
                self.resolves_at(raw, i) ==> self.normalize_realm(raw) == Some(self.realms[i].1),
    {
        if exists|i: int| 0 <= i < self.realms.len() && (#[trigger] self.realms[i]).0 == raw {
            let i = choose|i: int| 0 <= i < self.realms.len() && (#[trigger] self.realms[i]).0 == raw;
            self.first_match_exists(raw, i);
        }
        assert forall|i: int| #[trigger] self.resolves_at(raw, i) implies self.normalize_realm(raw)
            == Some(self.realms[i].1) by {
            let k = choose|k: int| self.resolves_at(raw, k);
            assert(self.resolves_at(raw, k));
            assert(i == k) by {
                if i < k {
                    assert(self.realms[i].0 != raw);
                } else if k < i {
                    assert(self.realms[k].0 != raw);
                }
            }
        }
    }

    proof fn first_match_exists(self, raw: Seq<char>, i: int)
        requires
            0 <= i < self.realms.len(),
            self.realms[i].0 == raw,
        ensures
            exists|k: int| self.resolves_at(raw, k),
        decreases i,
    {
        if exists|j: int| 0 <= j < i && (#[trigger] self.realms[j]).0 == raw {
            let j = choose|j: int| 0 <= j < i && (#[trigger] self.realms[j]).0 == raw;
            self.first_match_exists(raw, j);
        } else {
            assert(self.resolves_at(raw, i));
        }
    }
}

impl BillingCatalog {
    /// The realm that `raw` is a spelling of, or `None` where the catalog does not hold it.
    pub fn normalize_realm(&self, raw: &str) -> (realm: Option<String>)
        ensures
            crate::text::opt_text(realm) == self@.normalize_realm(raw@),
    {
        let wanted: String = raw.to_owned();
        let mut i: usize = 0;
        proof {
            self@.normalize_realm_is_first_match(raw@);
        }
        while i < self.realms.len()
            invariant
                i <= self.realms.len(),
                wanted@ == raw@,
                forall|j: int| 0 <= j < i ==> (#[trigger] self@.realms[j]).0 != raw@,
                forall|k: int| #[trigger]
                    self@.resolves_at(raw@, k) ==> self@.normalize_realm(raw@) == Some(
                        self@.realms[k].1,
                    ),
            decreases self.realms.len() - i,
        {
            if self.realms[i].spelling == wanted {
                assert(self@.resolves_at(raw@, i as int));
                return Some(self.realms[i].realm.clone());
            }
            i += 1;
        }
        None
    }
}

/// The qualified name of the feature that queries from `source_type` use.
pub fn feature_qualified_name(source_type: &str) -> (name: String)
    ensures
        name@ == "orbit_"@ + source_type@,
{
    let mut name: String = "orbit_".to_owned();
    name.append(source_type);
    name
}

} // verus!
