//! Display metadata for the model's parameters.
//!
//! The host labels each parameter it exposes with a property: a symbol, a
//! title, a grouping.  The labels live in a small dictionary keyed by the
//! parameter's name; the first label registered for a name wins, and asking
//! for an unregistered name yields an empty label rather than an error.

use vstd::prelude::*;
use vstd::string::StringExecFns;

verus! {

/// One labelling: a parameter's name and the property attached to it.
#[derive(Debug)]
pub struct PropertyPair {
    /// The name of the labelled parameter.
    pub parameter: String,
    /// The label attached to the parameter.
    pub property: String,
}

impl PropertyPair {
    /// An empty labelling.
    pub fn new() -> (pair: PropertyPair)
        ensures
            pair.parameter@ == Seq::<char>::empty(),
            pair.property@ == Seq::<char>::empty(),
    {
        PropertyPair { parameter: String::new(), property: String::new() }
    }

    /// A labelling of `parameter` with `property`.
    pub fn from_parts(parameter: &str, property: &str) -> (pair: PropertyPair)
        ensures
            pair.parameter@ == parameter@,
            pair.property@ == property@,
    {
        PropertyPair {
            parameter: String::from_str(parameter),
            property: String::from_str(property),
        }
    }
}

/// Whether some labelling in `pairs` is keyed by `key`.
pub open spec fn has_key(pairs: Seq<PropertyPair>, key: Seq<char>) -> bool {
    exists|i: int| 0 <= i < pairs.len() && pairs[i].parameter@ == key
}

/// The label attached to `key`: the property of the first labelling keyed by
/// it, and the empty label when there is none.
pub open spec fn lookup(pairs: Seq<PropertyPair>, key: Seq<char>) -> Seq<char>
    decreases pairs.len(),
{
    if pairs.len() == 0 {
        Seq::empty()
    } else if pairs[0].parameter@ == key {
        pairs[0].property@
    } else {
        lookup(pairs.drop_first(), key)
    }
}

/// When the first `i` labellings miss the key and the one at `i` matches it,
/// the lookup returns that labelling's property.
proof fn lemma_lookup_at_first_match(pairs: Seq<PropertyPair>, key: Seq<char>, i: int)
    requires
        0 <= i < pairs.len(),
        pairs[i].parameter@ == key,
        forall|j: int| 0 <= j < i ==> pairs[j].parameter@ != key,
    ensures
        lookup(pairs, key) == pairs[i].property@,
    decreases i,
{
    if i > 0 {
        lemma_lookup_at_first_match(pairs.drop_first(), key, i - 1);
    }
}

/// When no labelling is keyed by the key, the lookup returns the empty
/// label.
proof fn lemma_lookup_absent(pairs: Seq<PropertyPair>, key: Seq<char>)
    requires
        forall|j: int| 0 <= j < pairs.len() ==> pairs[j].parameter@ != key,
    ensures
        lookup(pairs, key) == Seq::<char>::empty(),
    decreases pairs.len(),
{
    if pairs.len() > 0 {
        lemma_lookup_absent(pairs.drop_first(), key);
    }
}

/// The dictionary of labellings, keyed by parameter name.
#[derive(Debug)]
pub struct ParameterProperties {
    /// The registered labellings; no two share a parameter name.
    pub properties: Vec<PropertyPair>,
}

impl ParameterProperties {
    /// No two labellings share a key, so each key has one well-defined
    /// label.
    pub open spec fn well_formed(self) -> bool {
        forall|i: int, j: int|
            0 <= i < j < self.properties@.len() ==> self.properties@[i].parameter@
                != self.properties@[j].parameter@
    }

    /// An empty dictionary.
    pub fn create() -> (properties: ParameterProperties)
        ensures
            properties.properties@.len() == 0,
            properties.well_formed(),
    {
        ParameterProperties { properties: Vec::new() }
    }

    /// Registers a labelling of `parameter` with `property`.  The first
    /// registration of a name wins: when the name is already labelled the
    /// dictionary does not change, and otherwise the new labelling is
    /// appended.
    pub fn add(&mut self, parameter: &String, property: &String)
        requires
            old(self).well_formed(),
        ensures
            final(self).well_formed(),
            has_key(old(self).properties@, parameter@)
                ==> final(self).properties@ == old(self).properties@,
            !has_key(old(self).properties@, parameter@)
                ==> final(self).properties@.len() == old(self).properties@.len() + 1,
            !has_key(old(self).properties@, parameter@)
                ==> final(self).properties@.drop_last() == old(self).properties@,
            !has_key(old(self).properties@, parameter@)
                ==> final(self).properties@.last().parameter@ == parameter@
                    && final(self).properties@.last().property@ == property@,
    {
        let n = self.properties.len();
        let mut i: usize = 0;
        while i < n
            invariant
                self.properties@ == old(self).properties@,
                self.well_formed(),
                n == self.properties@.len(),
                forall|j: int| 0 <= j < i ==> self.properties@[j].parameter@ != parameter@,
            decreases n - i,
        {
            if self.properties[i].parameter == *parameter {
                return ;
            }
            i = i + 1;
        }
        let ghost previous = self.properties@;
        let pair = PropertyPair::from_parts(parameter.as_str(), property.as_str());
        self.properties.push(pair);
        proof {
            assert(self.properties@.drop_last() =~= previous);
            assert forall|a: int, b: int|
                0 <= a < b < self.properties@.len() implies self.properties@[a].parameter@
                != self.properties@[b].parameter@ by {
                if b == self.properties@.len() - 1 {
                    assert(self.properties@[a] == previous[a]);
                } else {
                    assert(self.properties@[a] == previous[a]);
                    assert(self.properties@[b] == previous[b]);
                }
            }
        }
    }

    /// The labelling registered for `parameter`: the stored pair when the
    /// name is labelled, and the name with an empty label when it is not.
    pub fn property(&self, parameter: &String) -> (pair: PropertyPair)
        requires
            self.well_formed(),
        ensures
            pair.parameter@ == parameter@,
            pair.property@ == lookup(self.properties@, parameter@),
    {
        let n = self.properties.len();
        let mut i: usize = 0;
        while i < n
            invariant
                n == self.properties@.len(),
                forall|j: int| 0 <= j < i ==> self.properties@[j].parameter@ != parameter@,
            decreases n - i,
        {
            if self.properties[i].parameter == *parameter {
                proof {
                    lemma_lookup_at_first_match(self.properties@, parameter@, i as int);
                }
                return PropertyPair {
                    parameter: parameter.clone(),
                    property: self.properties[i].property.clone(),
                };
            }
            i = i + 1;
        }
        proof {
            lemma_lookup_absent(self.properties@, parameter@);
        }
        PropertyPair { parameter: parameter.clone(), property: String::new() }
    }

    /// How many parameter names are labelled.
    pub fn len(&self) -> (n: usize)
        ensures
            n == self.properties@.len(),
    {
        self.properties.len()
    }
}

} // verus!
