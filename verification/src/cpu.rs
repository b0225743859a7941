//! Which vectorised code paths the processor offers.
//!
//! Each architecture has its own set of features, strongest last, in which
//! `Baseline` is always there. Whether a feature counts as supported is what
//! was read from the processor, unless an override forces the answer.
//!
//! ## Overrides
//!
//! An override string is a comma separated list of feature names, each
//! prefixed with '+' to force the feature on or with '-' to force it off.
//! With "+AVX,-SSE42", AVX is treated as available and SSE4.2 as
//! unavailable, whatever the processor reports. An entry that is not one
//! sign and the name of a feature is skipped.

use vstd::prelude::*;

pub mod arm;
pub mod x86_64;

verus! {

/// The features of one architecture.
pub trait FeatureSet: Copy + Sized {
    /// What has been read from the processor.
    type Hardware;

    /// The feature that goes by `name` in an override, if there is one.
    spec fn named(name: Seq<char>) -> Option<Self>;

    /// Whether `hw` reports the feature.
    spec fn detected(self, hw: &Self::Hardware) -> bool;

    /// Looks a feature up by its name.
    fn from_str(s: &str) -> (r: Option<Self>)
        ensures
            r == Self::named(s@),
    ;

    /// Whether two features are the same one.
    fn same(self, other: Self) -> (b: bool)
        ensures
            b == (self == other),
    ;

    /// Looks the feature up in what was read from the processor.
    fn detect(self, hw: &Self::Hardware) -> (b: bool)
        ensures
            b == self.detected(hw),
    ;
}

/// Whether two strings hold the same text.
pub fn same_text(a: &str, b: &str) -> (same: bool)
    ensures
        same == (a@ == b@),
{
    let n = a.unicode_len();
    if b.unicode_len() != n {
        return false;
    }
    let mut i: usize = 0;
    while i < n
        invariant
            i <= n,
            n == a@.len(),
            n == b@.len(),
            forall|k: int| 0 <= k < i ==> a@[k] == b@[k],
        decreases n - i,
    {
        if a.get_char(i) != b.get_char(i) {
            return false;
        }
        i += 1;
    }
    assert(a@ =~= b@);
    true
}

/// The entries of an override string: the runs of characters between its
/// separators, empty runs included. A string without a separator is one
/// entry.
pub open spec fn split(s: Seq<char>, sep: char) -> Seq<Seq<char>>
    decreases s.len(),
{
    if s.len() == 0 {
        seq![Seq::empty()]
    } else {
        let before = split(s.drop_last(), sep);
        if s.last() == sep {
            before.push(Seq::empty())
        } else {
            before.drop_last().push(before.last().push(s.last()))
        }
    }
}

/// The name in an entry: what follows its sign, or all of it where it
/// begins with no sign. Only one sign is a sign: a second one belongs to the
/// name.
pub open spec fn name_of(entry: Seq<char>) -> Seq<char> {
    if entry.len() > 0 && (entry[0] == '+' || entry[0] == '-') {
        entry.drop_first()
    } else {
        entry
    }
}

/// What one entry of an override string asks for.
#[derive(Debug)]
pub enum Entry<A> {
    /// Treat the feature as supported.
    Enable(A),
    /// Treat the feature as unsupported.
    Disable(A),
    /// The entry names no feature: it is skipped.
    UnknownFeature,
    /// The entry names a feature but begins with neither '+' nor '-': it is
    /// skipped.
    MissingSign,
}

/// The meaning of one entry: '+' and the name of a feature forces the
/// feature on, '-' and the name of a feature forces it off. Anything else is
/// skipped: the name of a feature without a sign, and what names no feature.
pub open spec fn entry<A: FeatureSet>(text: Seq<char>) -> Entry<A> {
    match A::named(name_of(text)) {
        None => Entry::UnknownFeature,
        Some(feature) => if text.len() > 0 && text[0] == '+' {
            Entry::Enable(feature)
        } else if text.len() > 0 && text[0] == '-' {
            Entry::Disable(feature)
        } else {
            Entry::MissingSign
        },
    }
}

/// The features that `entries` force on (`enable`) or off (`!enable`), in
/// the order of the entries.
pub open spec fn forced<A: FeatureSet>(entries: Seq<Seq<char>>, enable: bool) -> Seq<A>
    decreases entries.len(),
{
    if entries.len() == 0 {
        Seq::empty()
    } else {
        let before = forced::<A>(entries.drop_last(), enable);
        match entry::<A>(entries.last()) {
            Entry::Enable(feature) => if enable {
                before.push(feature)
            } else {
                before
            },
            Entry::Disable(feature) => if enable {
                before
            } else {
                before.push(feature)
            },
            _ => before,
        }
    }
}

/// Reads one entry of an override string.
pub fn parse_entry<A: FeatureSet>(text: &str) -> (e: Entry<A>)
    ensures
        e == entry::<A>(text@),
{
    let n = text.unicode_len();
    if n == 0 {
        assert(text@ =~= name_of(text@));
        return match A::from_str(text) {
            None => Entry::UnknownFeature,
            Some(_) => Entry::MissingSign,
        };
    }
    let sign = text.get_char(0);
    if sign == '+' || sign == '-' {
        let name = text.substring_char(1, n);
        assert(text@.subrange(1, n as int) =~= text@.drop_first());
        match A::from_str(name) {
            None => Entry::UnknownFeature,
            Some(feature) => if sign == '+' {
                Entry::Enable(feature)
            } else {
                Entry::Disable(feature)
            },
        }
    } else {
        match A::from_str(text) {
            None => Entry::UnknownFeature,
            Some(_) => Entry::MissingSign,
        }
    }
}

/// The features that the user forces off and on.
pub struct Overrides<A> {
    /// Features treated as unsupported.
    pub blacklist: Vec<A>,
    /// Features treated as supported. A feature in both lists is supported.
    pub whitelist: Vec<A>,
}

/// Files one entry under the list it belongs to, if it belongs to one.
fn record<A: FeatureSet>(
    text: &str,
    blacklist: &mut Vec<A>,
    whitelist: &mut Vec<A>,
    Ghost(before): Ghost<Seq<Seq<char>>>,
)
    requires
        old(blacklist)@ == forced::<A>(before, false),
        old(whitelist)@ == forced::<A>(before, true),
    ensures
        final(blacklist)@ == forced::<A>(before.push(text@), false),
        final(whitelist)@ == forced::<A>(before.push(text@), true),
{
    assert(before.push(text@).drop_last() =~= before);
    match parse_entry::<A>(text) {
        Entry::Enable(feature) => whitelist.push(feature),
        Entry::Disable(feature) => blacklist.push(feature),
        _ => {},
    }
}

/// The text of each entry of a list.
pub open spec fn texts(list: Seq<&str>) -> Seq<Seq<char>> {
    Seq::new(list.len(), |i: int| list[i]@)
}

/// Cuts an override string into its entries, at every ','.
pub fn entries(s: &str) -> (list: Vec<&str>)
    ensures
        texts(list@) == split(s@, ','),
{
    let mut list: Vec<&str> = Vec::new();
    let n = s.unicode_len();
    let mut start: usize = 0;
    let mut i: usize = 0;
    proof {
        assert(s@.take(0).len() == 0);
        assert(s@.subrange(0, 0) =~= Seq::<char>::empty());
        assert(seq![Seq::<char>::empty()] =~= texts(list@).push(Seq::<char>::empty()));
    }
    while i < n
        invariant
            start <= i <= n,
            n == s@.len(),
            split(s@.take(i as int), ',') == texts(list@).push(s@.subrange(start as int, i as int)),
        decreases n - i,
    {
        proof {
            let upto = s@.take(i as int + 1);
            assert(upto.drop_last() =~= s@.take(i as int));
            assert(upto.last() == s@[i as int]);
            let current = s@.subrange(start as int, i as int);
            assert(texts(list@).push(current).drop_last() =~= texts(list@));
            assert(texts(list@).push(current).last() == current);
            assert(current.push(s@[i as int]) =~= s@.subrange(start as int, i as int + 1));
            assert(s@.subrange(i as int + 1, i as int + 1) =~= Seq::<char>::empty());
        }
        if s.get_char(i) == ',' {
            let ghost before = texts(list@);
            let text = s.substring_char(start, i);
            list.push(text);
            assert(texts(list@) =~= before.push(text@));
            start = i + 1;
        }
        i += 1;
    }
    let ghost before = texts(list@);
    let text = s.substring_char(start, n);
    list.push(text);
    assert(texts(list@) =~= before.push(text@));
    assert(s@.take(n as int) =~= s@);
    list
}

/// Reads the value of the override variable: `None` where it is not set.
///
/// Entries are separated by ','. Each entry that names a feature and begins
/// with '+' puts the feature on the whitelist, each that begins with '-' on
/// the blacklist; every other entry is skipped.
pub fn parse_env_overrides<A: FeatureSet>(value: Option<&str>) -> (overrides: Overrides<A>)
    ensures
        match value {
            None => overrides.blacklist@.len() == 0 && overrides.whitelist@.len() == 0,
            Some(s) => {
                &&& overrides.blacklist@ == forced::<A>(split(s@, ','), false)
                &&& overrides.whitelist@ == forced::<A>(split(s@, ','), true)
            },
        },
{
    let mut blacklist: Vec<A> = Vec::new();
    let mut whitelist: Vec<A> = Vec::new();
    let eo = match value {
        None => {
            return Overrides { blacklist, whitelist };
        },
        Some(s) => s,
    };
    let list = entries(eo);
    let mut k: usize = 0;
    while k < list.len()
        invariant
            k <= list@.len(),
            blacklist@ == forced::<A>(texts(list@).take(k as int), false),
            whitelist@ == forced::<A>(texts(list@).take(k as int), true),
        decreases list@.len() - k,
    {
        assert(texts(list@).take(k as int).push(list@[k as int]@) =~= texts(list@).take(
            k as int + 1,
        ));
        record(list[k], &mut blacklist, &mut whitelist, Ghost(texts(list@).take(k as int)));
        k += 1;
    }
    assert(texts(list@).take(k as int) =~= texts(list@));
    Overrides { blacklist, whitelist }
}

/// Whether `feature` counts as supported: yes if it is on the whitelist;
/// else no if it is on the blacklist; else what the processor reports.
pub open spec fn supported<A: FeatureSet>(
    feature: A,
    blacklist: Seq<A>,
    whitelist: Seq<A>,
    hw: &A::Hardware,
) -> bool {
    if whitelist.contains(feature) {
        true
    } else if blacklist.contains(feature) {
        false
    } else {
        feature.detected(hw)
    }
}

/// Whether `feature` occurs in `list`.
fn listed<A: FeatureSet>(list: &Vec<A>, feature: A) -> (found: bool)
    ensures
        found == list@.contains(feature),
{
    let mut i: usize = 0;
    while i < list.len()
        invariant
            i <= list@.len(),
            forall|k: int| 0 <= k < i ==> list@[k] != feature,
        decreases list@.len() - i,
    {
        if list[i].same(feature) {
            return true;
        }
        i += 1;
    }
    false
}

/// Returns `true` if the CPU supports `feature`.
///
/// The overrides are consulted first, the whitelist before the blacklist;
/// a feature on neither list is looked up in `hw`.
pub fn cpu_supports<A: FeatureSet>(feature: A, overrides: &Overrides<A>, hw: &A::Hardware) -> (b:
    bool)
    ensures
        b == supported(feature, overrides.blacklist@, overrides.whitelist@, hw),
{
    if listed(&overrides.whitelist, feature) {
        true
    } else if listed(&overrides.blacklist, feature) {
        false
    } else {
        feature.detect(hw)
    }
}

/// An override decides by itself: a feature on either list counts the same
/// on every processor.
pub proof fn override_decides<A: FeatureSet>(
    feature: A,
    blacklist: Seq<A>,
    whitelist: Seq<A>,
    hw: &A::Hardware,
    other: &A::Hardware,
)
    requires
        whitelist.contains(feature) || blacklist.contains(feature),
    ensures
        supported(feature, blacklist, whitelist, hw) == supported(
            feature,
            blacklist,
            whitelist,
            other,
        ),
        supported(feature, blacklist, whitelist, hw) == whitelist.contains(feature),
{
}

/// What no override names is as the processor reports it.
pub proof fn unlisted_falls_back<A: FeatureSet>(
    feature: A,
    blacklist: Seq<A>,
    whitelist: Seq<A>,
    hw: &A::Hardware,
)
    requires
        !whitelist.contains(feature),
        !blacklist.contains(feature),
    ensures
        supported(feature, blacklist, whitelist, hw) == feature.detected(hw),
{
}

/// Every feature that an override string forces goes by a name.
pub proof fn forced_go_by_name<A: FeatureSet>(entries: Seq<Seq<char>>, enable: bool, feature: A)
    requires
        forced::<A>(entries, enable).contains(feature),
    ensures
        exists|name: Seq<char>| A::named(name) == Some(feature),
    decreases entries.len(),
{
    if entries.len() > 0 {
        let before = forced::<A>(entries.drop_last(), enable);
        if before.contains(feature) {
            forced_go_by_name::<A>(entries.drop_last(), enable, feature);
        } else {
            let added = forced::<A>(entries, enable);
            assert(added =~= before.push(feature));
            assert(A::named(name_of(entries.last())) == Some(feature));
        }
    }
}

/// A feature that goes by no name counts as supported exactly where the
/// processor reports it, whatever the override string.
pub proof fn unnamed_is_as_detected<A: FeatureSet>(feature: A, s: Seq<char>, hw: &A::Hardware)
    requires
        forall|name: Seq<char>| A::named(name) != Some(feature),
    ensures
        supported(
            feature,
            forced::<A>(split(s, ','), false),
            forced::<A>(split(s, ','), true),
            hw,
        ) == feature.detected(hw),
{
    if forced::<A>(split(s, ','), false).contains(feature) {
        forced_go_by_name::<A>(split(s, ','), false, feature);
    }
    if forced::<A>(split(s, ','), true).contains(feature) {
        forced_go_by_name::<A>(split(s, ','), true, feature);
    }
}

} // verus!
