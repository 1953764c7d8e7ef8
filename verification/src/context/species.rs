//! The English names of the species.
use vstd::prelude::*;
use std::collections::HashMap;
use crate::context::{read_csv, csv_records, records_view, parse_u32, parse_u32_spec};

verus! {

broadcast use vstd::std_specs::hash::group_hash_axioms;

/// The language number of English in the tables.
pub open spec fn english() -> u32 {
    9
}

/// The names read from the first `n` records of the species-name table
/// (species, language, name): the English ones, a later record replacing an
/// earlier one; `None` when a record lacks a field or a number does not
/// parse.
pub open spec fn species_names(rows: Seq<Seq<Seq<char>>>, n: nat) -> Option<Map<u32, Seq<char>>>
    decreases n,
{
    if n == 0 {
        Some(Map::empty())
    } else {
        match species_names(rows, (n - 1) as nat) {
            None => None,
            Some(m) => {
                let r = rows[n - 1];
                if r.len() < 3 {
                    None
                } else {
                    match (parse_u32_spec(r[0]), parse_u32_spec(r[1])) {
                        (Some(id), Some(lang)) => Some(if lang == english() { m.insert(id, r[2]) } else { m }),
                        _ => None,
                    }
                }
            },
        }
    }
}

/// The names of the species, by number.
pub struct SpeciesProvider {
    mapping: HashMap<u32, String>,
}

impl SpeciesProvider {
    /// The names, by number.
    pub closed spec fn names(&self) -> Map<u32, Seq<char>> {
        self.mapping@.map_values(|s: String| s@)
    }

    /// The provider of the names in the records of the species-name table;
    /// `None` when a record lacks a field or a number does not parse.
    pub fn from_records(rows: &Vec<Vec<String>>) -> (r: Option<Self>)
        ensures
            match species_names(records_view(rows@), rows@.len() as nat) {
                Some(m) => r matches Some(p) && p.names() == m,
                None => r is None,
            },
    {
        let ghost rv = records_view(rows@);
        let mut mapping: HashMap<u32, String> = HashMap::new();
        let mut i: usize = 0;
        while i < rows.len()
            invariant
                i <= rows.len(),
                rv == records_view(rows@),
                species_names(rv, i as nat) == Some(mapping@.map_values(|s: String| s@)),
            decreases rows.len() - i,
        {
            let r = &rows[i];
            assert(rv[i as int] == r@.map_values(|f: String| f@));
            if r.len() < 3 {
                assert(species_names(rv, (i + 1) as nat) is None);
                proof { lemma_names_stay_none(rv, (i + 1) as nat, rows@.len() as nat); }
                return None;
            }
            let id = parse_u32(r[0].as_str());
            let lang = parse_u32(r[1].as_str());
            match (id, lang) {
                (Some(id), Some(lang)) => {
                    if lang == 9 {
                        let ghost before = mapping@;
                        mapping.insert(id, r[2].clone());
                        assert(mapping@.map_values(|s: String| s@) =~= before.map_values(|s: String| s@).insert(id, r@[2]@));
                    }
                },
                _ => {
                    assert(species_names(rv, (i + 1) as nat) is None);
                    proof { lemma_names_stay_none(rv, (i + 1) as nat, rows@.len() as nat); }
                    return None;
                },
            }
            i = i + 1;
        }
        Some(SpeciesProvider { mapping })
    }

    /// The provider of the names in a species-name table given as text;
    /// `None` when a record lacks a field or a number does not parse.
    pub fn new(csv_text: &str) -> (r: Option<Self>)
        ensures
            match species_names(csv_records(csv_text@), csv_records(csv_text@).len()) {
                Some(m) => r matches Some(p) && p.names() == m,
                None => r is None,
            },
    {
        let rows = read_csv(csv_text);
        Self::from_records(&rows)
    }

    /// The name of species `id`; empty when it has none.
    pub fn name(&self, id: u32) -> (r: String)
        ensures
            r@ == if self.names().contains_key(id) { self.names()[id] } else { Seq::empty() },
    {
        match self.mapping.get(&id) {
            Some(s) => s.clone(),
            None => String::new(),
        }
    }
}

proof fn lemma_names_stay_none(rows: Seq<Seq<Seq<char>>>, k: nat, n: nat)
    requires
        k <= n,
        species_names(rows, k) is None,
    ensures
        species_names(rows, n) is None,
    decreases n - k,
{
    if k < n {
        lemma_names_stay_none(rows, k, (n - 1) as nat);
    }
}

} // verus!
