//! The feature IDs that the HTTP interface announces.
use vstd::prelude::*;

verus! {

/// Holds and registers supported feature IDs for the HTTP interface, in the
/// order in which they were registered.
#[derive(Debug)]
pub struct FeatureSupport {
    features: Vec<String>,
}

impl View for FeatureSupport {
    type V = Seq<Seq<char>>;

    /// The registered IDs, oldest first.
    closed spec fn view(&self) -> Seq<Seq<char>> {
        self.features@.map_values(|f: String| f@)
    }
}

impl FeatureSupport {
    /// A registry with no feature.
    pub fn new() -> (s: Self)
        ensures
            s@ == Seq::<Seq<char>>::empty(),
    {
        let s = FeatureSupport { features: Vec::new() };
        assert(s@ =~= Seq::<Seq<char>>::empty());
        s
    }

    /// The features that the HTTP interface starts with: the single ID
    /// `"test"`.
    pub fn with_builtin_features() -> (s: Self)
        ensures
            s@ == seq!["test"@],
    {
        let mut s = FeatureSupport::new();
        s.register(String::from_str("test"));
        s
    }

    /// Returns whether the given feature ID is supported.
    pub fn supports(&self, id: &str) -> (r: bool)
        ensures
            r == self@.contains(id@),
    {
        let wanted = String::from_str(id);
        let mut i: usize = 0;
        while i < self.features.len()
            invariant
                0 <= i <= self.features@.len(),
                wanted@ == id@,
                forall|j: int| 0 <= j < i ==> self@[j] != id@,
            decreases self.features@.len() - i,
        {
            if self.features[i] == wanted {
                assert(self@[i as int] == id@);
                return true;
            }
            i = i + 1;
        }
        false
    }

    /// Returns the list of supported feature IDs.
    pub fn get(&self) -> (v: Vec<String>)
        ensures
            v@.map_values(|f: String| f@) == self@,
    {
        let mut v: Vec<String> = Vec::new();
        let mut i: usize = 0;
        while i < self.features.len()
            invariant
                0 <= i <= self.features@.len(),
                v@.len() == i,
                forall|j: int| 0 <= j < i ==> #[trigger] v@[j]@ == self.features@[j]@,
            decreases self.features@.len() - i,
        {
            v.push(self.features[i].clone());
            i = i + 1;
        }
        assert(v@.map_values(|f: String| f@) =~= self@);
        v
    }

    /// Registers a new feature ID. It is appended after the ones registered
    /// before, even if it is one of them.
    pub fn register(&mut self, id: String)
        ensures
            final(self)@ == old(self)@.push(id@),
    {
        self.features.push(id);
        assert(self@ =~= old(self)@.push(id@));
    }
}

/// Once registered, a feature is supported, and every feature supported
/// before stays supported.
pub proof fn lemma_register_then_supports(before: Seq<Seq<char>>, id: Seq<char>, other: Seq<char>)
    ensures
        before.push(id).contains(id),
        before.contains(other) ==> before.push(id).contains(other),
        before.push(id).contains(other) <==> (before.contains(other) || other == id),
{
    assert(before.push(id)[before.len() as int] == id);
    if before.contains(other) {
        let i = choose|i: int| 0 <= i < before.len() && before[i] == other;
        assert(before.push(id)[i] == other);
    }
    if before.push(id).contains(other) && other != id {
        let i = choose|i: int| 0 <= i < before.push(id).len() && before.push(id)[i] == other;
        assert(before[i] == other);
    }
}

} // verus!
