//! How version details, APIs and notifications compare: by version.

use crate::guide::Api;
use crate::guide::ApiView;
use crate::guide::Notifications;
use crate::guide::NotificationsView;
use crate::guide::Versions;
use crate::guide::VersionsView;
use crate::text::text_before;
use crate::text::text_is_before;
use core::cmp::Ordering;
use vstd::prelude::*;
use vstd::std_specs::cmp::PartialOrdSpecImpl;

verus! {

/// How two texts compare.
pub open spec fn text_order(a: Seq<char>, b: Seq<char>) -> Ordering {
    if a == b {
        Ordering::Equal
    } else if text_before(a, b) {
        Ordering::Less
    } else {
        Ordering::Greater
    }
}

/// How two texts compare where either may be missing: a missing one stands
/// before any text.
pub open spec fn optional_text_order(a: Option<Seq<char>>, b: Option<Seq<char>>) -> Ordering {
    match (a, b) {
        (None, None) => Ordering::Equal,
        (None, Some(_)) => Ordering::Less,
        (Some(_), None) => Ordering::Greater,
        (Some(x), Some(y)) => text_order(x, y),
    }
}

/// The greatest version that a list names; none for an empty list.
pub open spec fn greatest(versions: Seq<VersionsView>) -> Option<Seq<char>>
    decreases versions.len(),
{
    if versions.len() == 0 {
        None
    } else {
        match greatest(versions.drop_last()) {
            Some(best) if text_before(versions.last().version, best) => Some(best),
            _ => Some(versions.last().version),
        }
    }
}

/// Compares two texts.
pub fn order_texts(a: &String, b: &String) -> (r: Ordering)
    ensures
        r == text_order(a@, b@),
{
    if *a == *b {
        Ordering::Equal
    } else if text_is_before(a.as_str(), b.as_str()) {
        Ordering::Less
    } else {
        Ordering::Greater
    }
}

/// Compares two texts where either may be missing.
pub fn order_optional_texts(a: &Option<String>, b: &Option<String>) -> (r: Ordering)
    ensures
        r == optional_text_order(a.deep_view(), b.deep_view()),
{
    match (a, b) {
        (None, None) => Ordering::Equal,
        (None, Some(_)) => Ordering::Less,
        (Some(_), None) => Ordering::Greater,
        (Some(x), Some(y)) => order_texts(x, y),
    }
}

/// The greatest version that a list names.
pub fn greatest_version(versions: &Vec<Versions>) -> (r: Option<String>)
    ensures
        r.deep_view() == greatest(versions.deep_view()),
{
    let ghost all = versions.deep_view();
    let mut best: Option<String> = None;
    let mut i: usize = 0;
    while i < versions.len()
        invariant
            i <= versions.len(),
            all == versions.deep_view(),
            best.deep_view() == greatest(all.take(i as int)),
        decreases versions.len() - i,
    {
        proof {
            assert(all.take(i + 1).drop_last() =~= all.take(i as int));
            assert(all.take(i + 1).last() == all[i as int]);
        }
        let keep = match &best {
            Some(b) => text_is_before(versions[i].version.as_str(), b.as_str()),
            None => false,
        };
        if !keep {
            best = Some(versions[i].version.clone());
        }
        i += 1;
    }
    assert(all.take(i as int) =~= all);
    best
}

impl PartialOrdSpecImpl for Versions {
    open spec fn obeys_partial_cmp_spec() -> bool {
        true
    }

    /// Version details compare by their version alone.
    open spec fn partial_cmp_spec(&self, other: &Versions) -> Option<Ordering> {
        Some(text_order(self.version@, other.version@))
    }
}

impl PartialOrd for Versions {
    fn partial_cmp(&self, other: &Self) -> (r: Option<Ordering>) {
        Some(order_texts(&self.version, &other.version))
    }
}

impl PartialOrdSpecImpl for Api {
    open spec fn obeys_partial_cmp_spec() -> bool {
        true
    }

    /// APIs compare by the greatest of their versions; an API without any
    /// version stands before the others.
    open spec fn partial_cmp_spec(&self, other: &Api) -> Option<Ordering> {
        Some(
            optional_text_order(
                greatest(self.versions.deep_view()),
                greatest(other.versions.deep_view()),
            ),
        )
    }
}

impl PartialOrd for Api {
    fn partial_cmp(&self, other: &Self) -> (r: Option<Ordering>) {
        let mine = greatest_version(&self.versions);
        let theirs = greatest_version(&other.versions);
        Some(order_optional_texts(&mine, &theirs))
    }
}

impl PartialOrdSpecImpl for Notifications {
    open spec fn obeys_partial_cmp_spec() -> bool {
        true
    }

    /// Notifications compare by the greatest of their versions; one without
    /// any version stands before the others.
    open spec fn partial_cmp_spec(&self, other: &Notifications) -> Option<Ordering> {
        Some(
            optional_text_order(
                greatest(self.versions.deep_view()),
                greatest(other.versions.deep_view()),
            ),
        )
    }
}

impl PartialOrd for Notifications {
    fn partial_cmp(&self, other: &Self) -> (r: Option<Ordering>) {
        let mine = greatest_version(&self.versions);
        let theirs = greatest_version(&other.versions);
        Some(order_optional_texts(&mine, &theirs))
    }
}

} // verus!
