//! Finding the encrypted volume that the guard protects.
//!
//! The host lists its active block-device mappings one per line, the name
//! first and the device numbers after a tab. A mapping is a candidate when
//! its name holds the marker of an encrypted volume, and of several
//! candidates the one listed last is chosen.

use vstd::prelude::*;
use vstd::string::*;
use crate::text::{contains, occurs_in, pieces, split, split_ranges, to_chars};

verus! {

/// The marker that the name of an encrypted volume holds: `luks-`.
pub open spec fn volume_marker() -> Seq<char> {
    seq!['l', 'u', 'k', 's', '-']
}

/// A mapping with this name is a candidate for protection.
pub open spec fn is_protected_name(name: Seq<char>) -> bool {
    occurs_in(name, volume_marker())
}

/// The name that a line of the listing gives: the first of its fields, if
/// tabs cut the line into exactly two.
pub open spec fn name_on(line: Seq<char>) -> Option<Seq<char>> {
    let fields = split(line, '\t');
    if fields.len() == 2 {
        Some(fields[0])
    } else {
        None
    }
}

/// The names that a listing gives, in the order of its lines.
pub open spec fn listed_names(listing: Seq<char>) -> Seq<Seq<char>> {
    split(listing, '\n').filter_map(|line: Seq<char>| name_on(line))
}

/// The candidate that stands last among `names`, if there is one.
pub open spec fn chosen(names: Seq<Seq<char>>) -> Option<Seq<char>>
    decreases names.len(),
{
    if names.len() == 0 {
        None
    } else if is_protected_name(names.last()) {
        Some(names.last())
    } else {
        chosen(names.drop_last())
    }
}

/// The names of `mappings`, in order.
pub open spec fn names_of(mappings: Seq<VolumeMapping>) -> Seq<Seq<char>> {
    mappings.map_values(|m: VolumeMapping| m@)
}

/// Last match wins: the choice among `names` is a candidate that no
/// candidate follows, and there is no choice exactly when no name is a
/// candidate.
pub proof fn lemma_last_match_wins(names: Seq<Seq<char>>)
    ensures
        match chosen(names) {
            Some(name) => exists|i: int|
                {
                    &&& 0 <= i < names.len()
                    &&& #[trigger] names[i] == name
                    &&& is_protected_name(name)
                    &&& forall|j: int| i < j < names.len() ==> !is_protected_name(names[j])
                },
            None => forall|j: int| 0 <= j < names.len() ==> !is_protected_name(names[j]),
        },
    decreases names.len(),
{
    if names.len() == 0 {
    } else if is_protected_name(names.last()) {
    } else {
        let front = names.drop_last();
        lemma_last_match_wins(front);
        match chosen(front) {
            Some(name) => {
                let i = choose|i: int|
                    {
                        &&& 0 <= i < front.len()
                        &&& #[trigger] front[i] == name
                        &&& is_protected_name(name)
                        &&& forall|j: int| i < j < front.len() ==> !is_protected_name(front[j])
                    };
                assert forall|j: int| i < j < names.len() implies !is_protected_name(
                    names[j],
                ) by {
                    if j < front.len() {
                        assert(front[j] == names[j]);
                    }
                }
            },
            None => {
                assert forall|j: int| 0 <= j < names.len() implies !is_protected_name(
                    names[j],
                ) by {
                    if j < front.len() {
                        assert(front[j] == names[j]);
                    }
                }
            },
        }
    }
}

/// One active block-device mapping of the host.
#[derive(Debug, PartialEq, Eq)]
pub struct VolumeMapping {
    identifier: String,
    candidate: bool,
}

impl View for VolumeMapping {
    type V = Seq<char>;

    /// The mapping's name.
    closed spec fn view(&self) -> Seq<char> {
        self.identifier@
    }
}

impl VolumeMapping {
    #[verifier::type_invariant]
    spec fn well_formed(self) -> bool {
        self.candidate == is_protected_name(self.identifier@)
    }

    /// The mapping called `identifier`.
    pub fn new(identifier: String) -> (mapping: VolumeMapping)
        ensures
            mapping@ == identifier@,
    {
        let name = to_chars(identifier.as_str());
        let marker: Vec<char> = vec!['l', 'u', 'k', 's', '-'];
        let candidate = contains(&name, &marker);
        VolumeMapping { identifier, candidate }
    }

    /// The mapping's name.
    pub fn identifier(&self) -> (name: &String)
        ensures
            name@ == self@,
    {
        &self.identifier
    }

    /// Whether the name marks the mapping as an encrypted volume.
    pub fn is_candidate(&self) -> (candidate: bool)
        ensures
            candidate == is_protected_name(self@),
    {
        proof {
            use_type_invariant(self);
        }
        self.candidate
    }

}

impl Clone for VolumeMapping {
    /// A mapping of the same name.
    fn clone(&self) -> (copy: VolumeMapping)
        ensures
            copy@ == self@,
    {
        proof {
            use_type_invariant(self);
        }
        VolumeMapping { identifier: self.identifier.clone(), candidate: self.candidate }
    }
}

/// Why no volume was located.
#[derive(Clone, Copy, Debug, PartialEq, Eq, Structural)]
pub enum LocateError {
    /// No active mapping is a candidate.
    NoVolumeFound,
}

impl LocateError {
    /// What to tell the operator.
    pub fn message(&self) -> (text: String)
        ensures
            text@ == "no volume found"@,
    {
        String::from_str("no volume found")
    }
}

/// Picks the volume to protect among the host's active mappings.
pub struct VolumeLocator;

impl VolumeLocator {
    /// The mappings that `listing` names, in the order of its lines. A line
    /// that tabs do not cut into exactly two fields names none.
    pub fn enumerate(listing: &str) -> (mappings: Vec<VolumeMapping>)
        ensures
            names_of(mappings@) == listed_names(listing@),
    {
        let text = to_chars(listing);
        let lines = split_ranges(&text, 0, text.len(), '\n');
        assert(text@.subrange(0, text.len() as int) =~= text@);
        let ghost all_lines = split(listing@, '\n');
        let ghost name_on_line = |line: Seq<char>| name_on(line);
        let mut mappings: Vec<VolumeMapping> = Vec::new();
        let mut k: usize = 0;
        while k < lines.len()
            invariant
                k <= lines.len(),
                text@ == listing@,
                all_lines == pieces(text@, lines@),
                name_on_line == (|line: Seq<char>| name_on(line)),
                forall|j: int|
                    0 <= j < lines.len() ==> (#[trigger] lines[j]).0 <= lines[j].1 <= text.len(),
                names_of(mappings@) == all_lines.take(k as int).filter_map(name_on_line),
            decreases lines.len() - k,
        {
            let (from, to) = lines[k];
            let fields = split_ranges(&text, from, to, '\t');
            proof {
                let upto = all_lines.take(k + 1);
                assert(upto.drop_last() =~= all_lines.take(k as int));
            }
            if fields.len() == 2 {
                let (start, end) = fields[0];
                let name = listing.substring_char(start, end).to_owned();
                let mapping = VolumeMapping::new(name);
                assert(name_on(text@.subrange(from as int, to as int)) == Some(mapping@));
                mappings.push(mapping);
            }
            k += 1;
        }
        assert(all_lines.take(lines.len() as int) =~= all_lines);
        mappings
    }

    /// The candidate that stands last among `mappings`, or `NoVolumeFound`
    /// if none of them is a candidate.
    pub fn select(mappings: &Vec<VolumeMapping>) -> (found: Result<VolumeMapping, LocateError>)
        ensures
            match found {
                Ok(mapping) => chosen(names_of(mappings@)) == Some(mapping@),
                Err(e) => e == LocateError::NoVolumeFound && chosen(names_of(mappings@)).is_none(),
            },
    {
        let ghost names = names_of(mappings@);
        let mut k: usize = mappings.len();
        assert(names.take(k as int) =~= names);
        while k > 0
            invariant
                k <= mappings.len(),
                names == names_of(mappings@),
                chosen(names) == chosen(names.take(k as int)),
            decreases k,
        {
            let mapping = &mappings[k - 1];
            proof {
                let upto = names.take(k as int);
                assert(upto.drop_last() =~= names.take(k - 1));
            }
            if mapping.is_candidate() {
                return Ok(mapping.clone());
            }
            k -= 1;
        }
        Err(LocateError::NoVolumeFound)
    }

    /// The volume to protect on a host whose mappings `listing` names.
    pub fn locate(listing: &str) -> (found: Result<VolumeMapping, LocateError>)
        ensures
            match found {
                Ok(mapping) => chosen(listed_names(listing@)) == Some(mapping@),
                Err(e) => e == LocateError::NoVolumeFound && chosen(
                    listed_names(listing@),
                ).is_none(),
            },
    {
        let mappings = VolumeLocator::enumerate(listing);
        VolumeLocator::select(&mappings)
    }
}

} // verus!
