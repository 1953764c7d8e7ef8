//! Where each species is met: the encounters of the encounter table, joined
//! with the names of their areas, methods and conditions.
use vstd::prelude::*;
use std::collections::HashMap;
use crate::context::{read_csv, csv_records, records_view, parse_u32, parse_u32_spec};
use crate::context::versions::{VersionsProvider, names_view};
use crate::context::species::SpeciesProvider;
use crate::app::states::Game;
use crate::text::{decimal, u64_to_string};

verus! {

broadcast use vstd::std_specs::hash::group_hash_axioms;

/// The number in field `k` of a record, when the field is there and parses.
pub open spec fn num(r: Seq<Seq<char>>, k: int) -> Option<u32> {
    if 0 <= k < r.len() { parse_u32_spec(r[k]) } else { None }
}

/// A name record (id, language, name): an English name of a wanted id is
/// recorded, a later one replacing an earlier one.
pub open spec fn named_row(r: Seq<Seq<char>>, wanted: Seq<u32>, m: Map<u32, Seq<char>>) -> Option<Map<u32, Seq<char>>> {
    match (num(r, 0), num(r, 1)) {
        (Some(id), Some(lang)) => if wanted.contains(id) && lang == 9 {
            if r.len() > 2 { Some(m.insert(id, r[2])) } else { None }
        } else {
            Some(m)
        },
        _ => None,
    }
}

/// An identifier record (id, identifier, ...): the identifier of a wanted
/// id is recorded.
pub open spec fn ident_row(r: Seq<Seq<char>>, wanted: Seq<u32>, m: Map<u32, Seq<char>>) -> Option<Map<u32, Seq<char>>> {
    match num(r, 0) {
        Some(id) => if wanted.contains(id) {
            if r.len() > 1 { Some(m.insert(id, r[1])) } else { None }
        } else {
            Some(m)
        },
        None => None,
    }
}

/// What the area table gives for the wanted areas: their suffixes (when
/// not empty), the locations they belong to in record order, and the
/// location of each.
pub struct AreaInfo {
    pub suffixes: Map<u32, Seq<char>>,
    pub locations: Seq<u32>,
    pub area_location: Map<u32, u32>,
}

/// An area record (id, location, _, suffix).
pub open spec fn area_row(r: Seq<Seq<char>>, wanted: Seq<u32>, a: AreaInfo) -> Option<AreaInfo> {
    match num(r, 0) {
        Some(id) => if wanted.contains(id) {
            match num(r, 1) {
                Some(loc) => if r.len() > 3 {
                    Some(AreaInfo {
                        suffixes: if r[3].len() > 0 { a.suffixes.insert(id, r[3]) } else { a.suffixes },
                        locations: a.locations.push(loc),
                        area_location: a.area_location.insert(id, loc),
                    })
                } else {
                    None
                },
                None => None,
            }
        } else {
            Some(a)
        },
        None => None,
    }
}

/// What the slot table gives for the wanted slots: each one's method and
/// rarity, and the methods in record order.
pub struct SlotInfo {
    pub method: Map<u32, u32>,
    pub rarity: Map<u32, u32>,
    pub methods: Seq<u32>,
}

/// A slot record (id, _, method, _, rarity).
pub open spec fn slot_row(r: Seq<Seq<char>>, wanted: Seq<u32>, s: SlotInfo) -> Option<SlotInfo> {
    match num(r, 0) {
        Some(id) => if wanted.contains(id) {
            match (num(r, 2), num(r, 4)) {
                (Some(method), Some(rarity)) => Some(SlotInfo {
                    method: s.method.insert(id, method),
                    rarity: s.rarity.insert(id, rarity),
                    methods: s.methods.push(method),
                }),
                _ => None,
            }
        } else {
            Some(s)
        },
        None => None,
    }
}

/// What the condition table gives for the wanted encounters: each one's
/// condition, and the conditions in record order.
pub struct CondInfo {
    pub condition: Map<u32, u32>,
    pub conditions: Seq<u32>,
}

/// A condition record (encounter, condition).
pub open spec fn cond_row(r: Seq<Seq<char>>, wanted: Seq<u32>, c: CondInfo) -> Option<CondInfo> {
    match num(r, 0) {
        Some(id) => if wanted.contains(id) {
            match num(r, 1) {
                Some(cond) => Some(CondInfo { condition: c.condition.insert(id, cond), conditions: c.conditions.push(cond) }),
                None => None,
            }
        } else {
            Some(c)
        },
        None => None,
    }
}

/// The names read from the first `n` name records, on top of `m0`.
pub open spec fn named_fold(rows: Seq<Seq<Seq<char>>>, n: nat, wanted: Seq<u32>, m0: Map<u32, Seq<char>>) -> Option<Map<u32, Seq<char>>>
    decreases n,
{
    if n == 0 {
        Some(m0)
    } else {
        match named_fold(rows, (n - 1) as nat, wanted, m0) {
            None => None,
            Some(m) => named_row(rows[n - 1], wanted, m),
        }
    }
}

/// The identifiers read from the first `n` identifier records, on top of
/// `m0`.
pub open spec fn ident_fold(rows: Seq<Seq<Seq<char>>>, n: nat, wanted: Seq<u32>, m0: Map<u32, Seq<char>>) -> Option<Map<u32, Seq<char>>>
    decreases n,
{
    if n == 0 {
        Some(m0)
    } else {
        match ident_fold(rows, (n - 1) as nat, wanted, m0) {
            None => None,
            Some(m) => ident_row(rows[n - 1], wanted, m),
        }
    }
}

/// What the first `n` area records give.
pub open spec fn area_fold(rows: Seq<Seq<Seq<char>>>, n: nat, wanted: Seq<u32>) -> Option<AreaInfo>
    decreases n,
{
    if n == 0 {
        Some(AreaInfo { suffixes: Map::empty(), locations: Seq::empty(), area_location: Map::empty() })
    } else {
        match area_fold(rows, (n - 1) as nat, wanted) {
            None => None,
            Some(a) => area_row(rows[n - 1], wanted, a),
        }
    }
}

/// What the first `n` slot records give.
pub open spec fn slot_fold(rows: Seq<Seq<Seq<char>>>, n: nat, wanted: Seq<u32>) -> Option<SlotInfo>
    decreases n,
{
    if n == 0 {
        Some(SlotInfo { method: Map::empty(), rarity: Map::empty(), methods: Seq::empty() })
    } else {
        match slot_fold(rows, (n - 1) as nat, wanted) {
            None => None,
            Some(x) => slot_row(rows[n - 1], wanted, x),
        }
    }
}

/// What the first `n` condition records give.
pub open spec fn cond_fold(rows: Seq<Seq<Seq<char>>>, n: nat, wanted: Seq<u32>) -> Option<CondInfo>
    decreases n,
{
    if n == 0 {
        Some(CondInfo { condition: Map::empty(), conditions: Seq::empty() })
    } else {
        match cond_fold(rows, (n - 1) as nat, wanted) {
            None => None,
            Some(x) => cond_row(rows[n - 1], wanted, x),
        }
    }
}

/// The encounters of the first `n` encounter records.
pub open spec fn encounter_fold(rows: Seq<Seq<Seq<char>>>, n: nat, species: u32, versions: Seq<u32>) -> Option<Seq<EncounterUnparsed>>
    decreases n,
{
    if n == 0 {
        Some(Seq::empty())
    } else {
        match encounter_fold(rows, (n - 1) as nat, species, versions) {
            None => None,
            Some(x) => encounter_row(rows[n - 1], species, versions, x),
        }
    }
}

/// The areas of the first `k` of `locs` that `m` does not name, in order.
pub open spec fn missing_areas(locs: Seq<u32>, m: Map<u32, Seq<char>>, k: nat) -> Seq<u32>
    decreases k,
{
    if k == 0 {
        Seq::empty()
    } else if m.contains_key(locs[k - 1]) {
        missing_areas(locs, m, (k - 1) as nat)
    } else {
        missing_areas(locs, m, (k - 1) as nat).push(locs[k - 1])
    }
}

/// An encounter as the encounter table gives it.
#[derive(Clone, Copy, Debug, PartialEq, Eq, Structural)]
pub struct EncounterUnparsed {
    pub id: u32,
    pub version: u32,
    pub location: u32,
    pub slot: u32,
    pub mon: u32,
    pub min_lvl: u32,
    pub max_lvl: u32,
}

/// An encounter record (id, version, area, slot, species, min level, max
/// level) of one of the wanted versions and the wanted species.
pub open spec fn encounter_row(r: Seq<Seq<char>>, species: u32, versions: Seq<u32>, es: Seq<EncounterUnparsed>)
    -> Option<Seq<EncounterUnparsed>>
{
    match (num(r, 0), num(r, 1), num(r, 2), num(r, 3), num(r, 4), num(r, 5), num(r, 6)) {
        (Some(id), Some(version), Some(location), Some(slot), Some(mon), Some(min_lvl), Some(max_lvl)) =>
            if mon == species && versions.contains(version) {
                Some(es.push(EncounterUnparsed { id, version, location, slot, mon, min_lvl, max_lvl }))
            } else {
                Some(es)
            },
        _ => None,
    }
}

/// The tables that name the parts of an encounter, as records.
pub struct EncounterTables {
    pub area_names: Vec<Vec<String>>,
    pub areas: Vec<Vec<String>>,
    pub location_names: Vec<Vec<String>>,
    pub slots: Vec<Vec<String>>,
    pub methods: Vec<Vec<String>>,
    pub method_names: Vec<Vec<String>>,
    pub conditions: Vec<Vec<String>>,
    pub condition_names: Vec<Vec<String>>,
}

/// The abstract value of [`EncounterTables`].
pub struct TablesView {
    pub area_names: Seq<Seq<Seq<char>>>,
    pub areas: Seq<Seq<Seq<char>>>,
    pub location_names: Seq<Seq<Seq<char>>>,
    pub slots: Seq<Seq<Seq<char>>>,
    pub methods: Seq<Seq<Seq<char>>>,
    pub method_names: Seq<Seq<Seq<char>>>,
    pub conditions: Seq<Seq<Seq<char>>>,
    pub condition_names: Seq<Seq<Seq<char>>>,
}

impl View for EncounterTables {
    type V = TablesView;

    open spec fn view(&self) -> TablesView {
        TablesView {
            area_names: records_view(self.area_names@),
            areas: records_view(self.areas@),
            location_names: records_view(self.location_names@),
            slots: records_view(self.slots@),
            methods: records_view(self.methods@),
            method_names: records_view(self.method_names@),
            conditions: records_view(self.conditions@),
            condition_names: records_view(self.condition_names@),
        }
    }
}

/// The name of an area found only through the area table: the name of its
/// location, then a space and the area's suffix when it has one;
/// `UNKNOWN` when the location has no English name.
pub open spec fn built_name(a: AreaInfo, loc_names: Map<u32, Seq<char>>, area: u32) -> Seq<char> {
    let suffix = if a.suffixes.contains_key(area) { " "@ + a.suffixes[area] } else { Seq::empty() };
    let location = a.area_location[area];
    if loc_names.contains_key(location) { loc_names[location] + suffix } else { "UNKNOWN"@ }
}

/// The area names after filling in, for each of the first `k` areas
/// without an English name, the name built from the area table; `None`
/// when such an area is missing from the area table.
pub open spec fn fill_names(m: Map<u32, Seq<char>>, locs: Seq<u32>, k: nat, a: AreaInfo, loc_names: Map<u32, Seq<char>>)
    -> Option<Map<u32, Seq<char>>>
    decreases k,
{
    if k == 0 {
        Some(m)
    } else {
        match fill_names(m, locs, (k - 1) as nat, a, loc_names) {
            None => None,
            Some(cur) => {
                let loc = locs[k - 1];
                if cur.contains_key(loc) {
                    Some(cur)
                } else if a.area_location.contains_key(loc) {
                    Some(cur.insert(loc, built_name(a, loc_names, loc)))
                } else {
                    None
                }
            },
        }
    }
}

/// The names of the areas of the encounters: their English names, and for
/// the others (looked up only when some are missing) the names built from
/// the area and location tables; `None` when a record fails or an area is
/// found nowhere.
pub open spec fn area_names_of(t: TablesView, locs: Seq<u32>) -> Option<Map<u32, Seq<char>>> {
    match named_fold(t.area_names, t.area_names.len(), locs, Map::empty()) {
        None => None,
        Some(m) => if m.len() == locs.len() {
            Some(m)
        } else {
            let wanted = missing_areas(locs, m, locs.len());
            match area_fold(t.areas, t.areas.len(), wanted) {
                None => None,
                Some(a) => match named_fold(t.location_names, t.location_names.len(), a.locations, Map::empty()) {
                    None => None,
                    Some(ln) => fill_names(m, locs, locs.len(), a, ln),
                },
            }
        },
    }
}

/// An encounter with the names of its version, area, method and condition.
pub struct EncounterParsed {
    pub id: u32,
    pub version_id: u32,
    pub version: String,
    pub location: String,
    pub slot: u32,
    pub method_id: u32,
    pub method: String,
    pub rarity: u32,
    pub mon: u32,
    pub min_lvl: u32,
    pub max_lvl: u32,
    pub condition: String,
    pub condition_id: u32,
}

/// The abstract value of an [`EncounterParsed`].
pub struct ParsedView {
    pub id: u32,
    pub version_id: u32,
    pub version: Seq<char>,
    pub location: Seq<char>,
    pub slot: u32,
    pub method_id: u32,
    pub method: Seq<char>,
    pub rarity: u32,
    pub mon: u32,
    pub min_lvl: u32,
    pub max_lvl: u32,
    pub condition: Seq<char>,
    pub condition_id: u32,
}

impl View for EncounterParsed {
    type V = ParsedView;

    open spec fn view(&self) -> ParsedView {
        ParsedView {
            id: self.id,
            version_id: self.version_id,
            version: self.version@,
            location: self.location@,
            slot: self.slot,
            method_id: self.method_id,
            method: self.method@,
            rarity: self.rarity,
            mon: self.mon,
            min_lvl: self.min_lvl,
            max_lvl: self.max_lvl,
            condition: self.condition@,
            condition_id: self.condition_id,
        }
    }
}

/// The abstract values of a list of parsed encounters.
pub open spec fn parsed_view(ps: Seq<EncounterParsed>) -> Seq<ParsedView> {
    ps.map_values(|p: EncounterParsed| p@)
}

/// Everything the tables tell of the encounters' parts.
pub struct JoinInfo {
    pub areas: Map<u32, Seq<char>>,
    pub slots: SlotInfo,
    pub method_names: Map<u32, Seq<char>>,
    pub conds: CondInfo,
    pub cond_names: Map<u32, Seq<char>>,
}

/// Reads what the tables tell of the encounters `es`; `None` when a record
/// fails or an area is found nowhere.
pub open spec fn join_info(t: TablesView, es: Seq<EncounterUnparsed>) -> Option<JoinInfo> {
    let locs = es.map_values(|e: EncounterUnparsed| e.location);
    let slots = es.map_values(|e: EncounterUnparsed| e.slot);
    let ids = es.map_values(|e: EncounterUnparsed| e.id);
    match area_names_of(t, locs) {
        None => None,
        Some(areas) => match slot_fold(t.slots, t.slots.len(), slots) {
            None => None,
            Some(si) => match ident_fold(t.methods, t.methods.len(), si.methods, Map::empty()) {
                None => None,
                Some(m1) => match named_fold(t.method_names, t.method_names.len(), si.methods, m1) {
                    None => None,
                    Some(mn) => match cond_fold(t.conditions, t.conditions.len(), ids) {
                        None => None,
                        Some(ci) => match named_fold(t.condition_names, t.condition_names.len(), ci.conditions, Map::empty()) {
                            None => None,
                            Some(cn) => Some(JoinInfo { areas, slots: si, method_names: mn, conds: ci, cond_names: cn }),
                        },
                    },
                },
            },
        },
    }
}

/// One encounter with its names: the area's name (`UNKNOWN` without one),
/// the slot's method and rarity, the method's name, the condition (none is
/// 0, with an empty name) and the version's name; `None` when the slot, the
/// method's name, the condition's name or the version's name is missing.
pub open spec fn parse_one(j: JoinInfo, versions: Map<u32, Seq<char>>, e: EncounterUnparsed) -> Option<ParsedView> {
    let cid: u32 = if j.conds.condition.contains_key(e.id) { j.conds.condition[e.id] } else { 0 };
    if !j.slots.method.contains_key(e.slot) || !j.slots.rarity.contains_key(e.slot) {
        None
    } else if !j.method_names.contains_key(j.slots.method[e.slot]) {
        None
    } else if cid != 0 && !j.cond_names.contains_key(cid) {
        None
    } else if !versions.contains_key(e.version) {
        None
    } else {
        Some(ParsedView {
            id: e.id,
            version_id: e.version,
            version: versions[e.version],
            location: if j.areas.contains_key(e.location) { j.areas[e.location] } else { "UNKNOWN"@ },
            slot: e.slot,
            method_id: j.slots.method[e.slot],
            method: j.method_names[j.slots.method[e.slot]],
            rarity: j.slots.rarity[e.slot],
            mon: e.mon,
            min_lvl: e.min_lvl,
            max_lvl: e.max_lvl,
            condition: if cid == 0 { Seq::empty() } else { j.cond_names[cid] },
            condition_id: cid,
        })
    }
}

/// The first `k` encounters with their names; `None` when one of them
/// lacks one.
pub open spec fn parse_all(j: JoinInfo, versions: Map<u32, Seq<char>>, es: Seq<EncounterUnparsed>, k: nat) -> Option<Seq<ParsedView>>
    decreases k,
{
    if k == 0 {
        Some(Seq::empty())
    } else {
        match parse_all(j, versions, es, (k - 1) as nat) {
            None => None,
            Some(ps) => match parse_one(j, versions, es[k - 1]) {
                None => None,
                Some(p) => Some(ps.push(p)),
            },
        }
    }
}

/// The encounters `es` with their names, in order; `None` when a record of
/// the tables fails or a name is missing.
pub open spec fn parsed_encounters(t: TablesView, versions: Map<u32, Seq<char>>, es: Seq<EncounterUnparsed>) -> Option<Seq<ParsedView>> {
    match join_info(t, es) {
        None => None,
        Some(j) => parse_all(j, versions, es, es.len()),
    }
}

proof fn lemma_named_none(rows: Seq<Seq<Seq<char>>>, k: nat, n: nat, wanted: Seq<u32>, m0: Map<u32, Seq<char>>)
    requires
        k <= n,
        named_fold(rows, k, wanted, m0) is None,
    ensures
        named_fold(rows, n, wanted, m0) is None,
    decreases n - k,
{
    if k < n {
        lemma_named_none(rows, k, (n - 1) as nat, wanted, m0);
    }
}

proof fn lemma_ident_none(rows: Seq<Seq<Seq<char>>>, k: nat, n: nat, wanted: Seq<u32>, m0: Map<u32, Seq<char>>)
    requires
        k <= n,
        ident_fold(rows, k, wanted, m0) is None,
    ensures
        ident_fold(rows, n, wanted, m0) is None,
    decreases n - k,
{
    if k < n {
        lemma_ident_none(rows, k, (n - 1) as nat, wanted, m0);
    }
}

proof fn lemma_area_none(rows: Seq<Seq<Seq<char>>>, k: nat, n: nat, wanted: Seq<u32>)
    requires
        k <= n,
        area_fold(rows, k, wanted) is None,
    ensures
        area_fold(rows, n, wanted) is None,
    decreases n - k,
{
    if k < n {
        lemma_area_none(rows, k, (n - 1) as nat, wanted);
    }
}

proof fn lemma_slot_none(rows: Seq<Seq<Seq<char>>>, k: nat, n: nat, wanted: Seq<u32>)
    requires
        k <= n,
        slot_fold(rows, k, wanted) is None,
    ensures
        slot_fold(rows, n, wanted) is None,
    decreases n - k,
{
    if k < n {
        lemma_slot_none(rows, k, (n - 1) as nat, wanted);
    }
}

proof fn lemma_cond_none(rows: Seq<Seq<Seq<char>>>, k: nat, n: nat, wanted: Seq<u32>)
    requires
        k <= n,
        cond_fold(rows, k, wanted) is None,
    ensures
        cond_fold(rows, n, wanted) is None,
    decreases n - k,
{
    if k < n {
        lemma_cond_none(rows, k, (n - 1) as nat, wanted);
    }
}

proof fn lemma_encounter_none(rows: Seq<Seq<Seq<char>>>, k: nat, n: nat, species: u32, versions: Seq<u32>)
    requires
        k <= n,
        encounter_fold(rows, k, species, versions) is None,
    ensures
        encounter_fold(rows, n, species, versions) is None,
    decreases n - k,
{
    if k < n {
        lemma_encounter_none(rows, k, (n - 1) as nat, species, versions);
    }
}

proof fn lemma_fill_none(m: Map<u32, Seq<char>>, locs: Seq<u32>, k: nat, n: nat, a: AreaInfo, ln: Map<u32, Seq<char>>)
    requires
        k <= n,
        fill_names(m, locs, k, a, ln) is None,
    ensures
        fill_names(m, locs, n, a, ln) is None,
    decreases n - k,
{
    if k < n {
        lemma_fill_none(m, locs, k, (n - 1) as nat, a, ln);
    }
}

proof fn lemma_parse_none(j: JoinInfo, versions: Map<u32, Seq<char>>, es: Seq<EncounterUnparsed>, k: nat, n: nat)
    requires
        k <= n,
        parse_all(j, versions, es, k) is None,
    ensures
        parse_all(j, versions, es, n) is None,
    decreases n - k,
{
    if k < n {
        lemma_parse_none(j, versions, es, k, (n - 1) as nat);
    }
}

/// The abstract value of one record.
pub open spec fn row_view(r: Vec<String>) -> Seq<Seq<char>> {
    r@.map_values(|f: String| f@)
}

fn field_num(r: &Vec<String>, k: usize) -> (n: Option<u32>)
    ensures
        n == num(row_view(*r), k as int),
{
    if k < r.len() { parse_u32(r[k].as_str()) } else { None }
}

fn has(v: &Vec<u32>, x: u32) -> (r: bool)
    ensures
        r == v@.contains(x),
{
    let mut i: usize = 0;
    while i < v.len()
        invariant
            i <= v.len(),
            forall|j: int| 0 <= j < i ==> v@[j] != x,
        decreases v.len() - i,
    {
        if v[i] == x {
            assert(v@[i as int] == x);
            return true;
        }
        i = i + 1;
    }
    false
}

fn read_named(rows: &Vec<Vec<String>>, wanted: &Vec<u32>, init: HashMap<u32, String>) -> (r: Option<HashMap<u32, String>>)
    ensures
        match named_fold(records_view(rows@), rows@.len() as nat, wanted@, names_view(init@)) {
            None => r is None,
            Some(x) => r matches Some(h) && names_view(h@) == x,
        },
{
    let ghost rv = records_view(rows@);
    let ghost m0 = names_view(init@);
    let mut m = init;
    let mut i: usize = 0;
    while i < rows.len()
        invariant
            i <= rows.len(),
            rv == records_view(rows@),
            m0 == names_view(init@),
            named_fold(rv, i as nat, wanted@, m0) == Some(names_view(m@)),
        decreases rows.len() - i,
    {
        let r = &rows[i];
        assert(rv[i as int] == row_view(*r));
        match (field_num(r, 0), field_num(r, 1)) {
            (Some(id), Some(lang)) => {
                if has(wanted, id) && lang == 9 {
                    if r.len() > 2 {
                        let ghost before = m@;
                        m.insert(id, r[2].clone());
                        assert(names_view(m@) =~= names_view(before).insert(id, row_view(*r)[2]));
                    } else {
                        proof { lemma_named_none(rv, (i + 1) as nat, rows@.len() as nat, wanted@, m0); }
                        return None;
                    }
                }
            },
            _ => {
                proof { lemma_named_none(rv, (i + 1) as nat, rows@.len() as nat, wanted@, m0); }
                return None;
            },
        }
        i = i + 1;
    }
    Some(m)
}

fn read_ident(rows: &Vec<Vec<String>>, wanted: &Vec<u32>, init: HashMap<u32, String>) -> (r: Option<HashMap<u32, String>>)
    ensures
        match ident_fold(records_view(rows@), rows@.len() as nat, wanted@, names_view(init@)) {
            None => r is None,
            Some(x) => r matches Some(h) && names_view(h@) == x,
        },
{
    let ghost rv = records_view(rows@);
    let ghost m0 = names_view(init@);
    let mut m = init;
    let mut i: usize = 0;
    while i < rows.len()
        invariant
            i <= rows.len(),
            rv == records_view(rows@),
            m0 == names_view(init@),
            ident_fold(rv, i as nat, wanted@, m0) == Some(names_view(m@)),
        decreases rows.len() - i,
    {
        let r = &rows[i];
        assert(rv[i as int] == row_view(*r));
        match field_num(r, 0) {
            Some(id) => {
                if has(wanted, id) {
                    if r.len() > 1 {
                        let ghost before = m@;
                        m.insert(id, r[1].clone());
                        assert(names_view(m@) =~= names_view(before).insert(id, row_view(*r)[1]));
                    } else {
                        proof { lemma_ident_none(rv, (i + 1) as nat, rows@.len() as nat, wanted@, m0); }
                        return None;
                    }
                }
            },
            None => {
                proof { lemma_ident_none(rv, (i + 1) as nat, rows@.len() as nat, wanted@, m0); }
                return None;
            },
        }
        i = i + 1;
    }
    Some(m)
}

/// What the area table gives, as held while reading it.
pub struct AreaTables {
    pub suffixes: HashMap<u32, String>,
    pub locations: Vec<u32>,
    pub area_location: HashMap<u32, u32>,
}

/// The abstract value of an [`AreaTables`].
pub open spec fn area_view(a: AreaTables) -> AreaInfo {
    AreaInfo { suffixes: names_view(a.suffixes@), locations: a.locations@, area_location: a.area_location@ }
}

fn read_areas(rows: &Vec<Vec<String>>, wanted: &Vec<u32>) -> (r: Option<AreaTables>)
    ensures
        match area_fold(records_view(rows@), rows@.len() as nat, wanted@) {
            None => r is None,
            Some(x) => r matches Some(a) && area_view(a) == x,
        },
{
    let ghost rv = records_view(rows@);
    let mut a = AreaTables { suffixes: HashMap::new(), locations: Vec::new(), area_location: HashMap::new() };
    assert(area_view(a) == AreaInfo { suffixes: Map::empty(), locations: Seq::empty(), area_location: Map::empty() }) by {
        assert(names_view(a.suffixes@) =~= Map::empty());
        assert(a.area_location@ =~= Map::empty());
        assert(a.locations@ =~= Seq::empty());
    }
    let mut i: usize = 0;
    while i < rows.len()
        invariant
            i <= rows.len(),
            rv == records_view(rows@),
            area_fold(rv, i as nat, wanted@) == Some(area_view(a)),
        decreases rows.len() - i,
    {
        let r = &rows[i];
        assert(rv[i as int] == row_view(*r));
        match field_num(r, 0) {
            Some(id) => {
                if has(wanted, id) {
                    match field_num(r, 1) {
                        Some(loc) => {
                            if r.len() > 3 {
                                let ghost before = area_view(a);
                                if r[3].as_str().unicode_len() > 0 {
                                    let ghost sb = a.suffixes@;
                                    a.suffixes.insert(id, r[3].clone());
                                    assert(names_view(a.suffixes@) =~= names_view(sb).insert(id, row_view(*r)[3]));
                                }
                                a.locations.push(loc);
                                a.area_location.insert(id, loc);
                            } else {
                                proof { lemma_area_none(rv, (i + 1) as nat, rows@.len() as nat, wanted@); }
                                return None;
                            }
                        },
                        None => {
                            proof { lemma_area_none(rv, (i + 1) as nat, rows@.len() as nat, wanted@); }
                            return None;
                        },
                    }
                }
            },
            None => {
                proof { lemma_area_none(rv, (i + 1) as nat, rows@.len() as nat, wanted@); }
                return None;
            },
        }
        i = i + 1;
    }
    Some(a)
}

/// What the slot table gives, as held while reading it.
pub struct SlotTables {
    pub method: HashMap<u32, u32>,
    pub rarity: HashMap<u32, u32>,
    pub methods: Vec<u32>,
}

fn read_slots(rows: &Vec<Vec<String>>, wanted: &Vec<u32>) -> (r: Option<SlotTables>)
    ensures
        match slot_fold(records_view(rows@), rows@.len() as nat, wanted@) {
            None => r is None,
            Some(x) => r matches Some(s) && (SlotInfo { method: s.method@, rarity: s.rarity@, methods: s.methods@ }) == x,
        },
{
    let ghost rv = records_view(rows@);
    let mut s = SlotTables { method: HashMap::new(), rarity: HashMap::new(), methods: Vec::new() };
    assert(s.method@ =~= Map::empty());
    assert(s.rarity@ =~= Map::empty());
    assert(s.methods@ =~= Seq::empty());
    let mut i: usize = 0;
    while i < rows.len()
        invariant
            i <= rows.len(),
            rv == records_view(rows@),
            slot_fold(rv, i as nat, wanted@) == Some(SlotInfo { method: s.method@, rarity: s.rarity@, methods: s.methods@ }),
        decreases rows.len() - i,
    {
        let r = &rows[i];
        assert(rv[i as int] == row_view(*r));
        match field_num(r, 0) {
            Some(id) => {
                if has(wanted, id) {
                    match (field_num(r, 2), field_num(r, 4)) {
                        (Some(method), Some(rarity)) => {
                            s.method.insert(id, method);
                            s.rarity.insert(id, rarity);
                            s.methods.push(method);
                        },
                        _ => {
                            proof { lemma_slot_none(rv, (i + 1) as nat, rows@.len() as nat, wanted@); }
                            return None;
                        },
                    }
                }
            },
            None => {
                proof { lemma_slot_none(rv, (i + 1) as nat, rows@.len() as nat, wanted@); }
                return None;
            },
        }
        i = i + 1;
    }
    Some(s)
}

/// What the condition table gives, as held while reading it.
pub struct CondTables {
    pub condition: HashMap<u32, u32>,
    pub conditions: Vec<u32>,
}

fn read_conds(rows: &Vec<Vec<String>>, wanted: &Vec<u32>) -> (r: Option<CondTables>)
    ensures
        match cond_fold(records_view(rows@), rows@.len() as nat, wanted@) {
            None => r is None,
            Some(x) => r matches Some(c) && (CondInfo { condition: c.condition@, conditions: c.conditions@ }) == x,
        },
{
    let ghost rv = records_view(rows@);
    let mut c = CondTables { condition: HashMap::new(), conditions: Vec::new() };
    assert(c.condition@ =~= Map::empty());
    assert(c.conditions@ =~= Seq::empty());
    let mut i: usize = 0;
    while i < rows.len()
        invariant
            i <= rows.len(),
            rv == records_view(rows@),
            cond_fold(rv, i as nat, wanted@) == Some(CondInfo { condition: c.condition@, conditions: c.conditions@ }),
        decreases rows.len() - i,
    {
        let r = &rows[i];
        assert(rv[i as int] == row_view(*r));
        match field_num(r, 0) {
            Some(id) => {
                if has(wanted, id) {
                    match field_num(r, 1) {
                        Some(cond) => {
                            c.condition.insert(id, cond);
                            c.conditions.push(cond);
                        },
                        None => {
                            proof { lemma_cond_none(rv, (i + 1) as nat, rows@.len() as nat, wanted@); }
                            return None;
                        },
                    }
                }
            },
            None => {
                proof { lemma_cond_none(rv, (i + 1) as nat, rows@.len() as nat, wanted@); }
                return None;
            },
        }
        i = i + 1;
    }
    Some(c)
}

fn area_names(t: &EncounterTables, locs: &Vec<u32>) -> (r: Option<HashMap<u32, String>>)
    ensures
        match area_names_of(t@, locs@) {
            None => r is None,
            Some(x) => r matches Some(h) && names_view(h@) == x,
        },
{
    let m0: HashMap<u32, String> = HashMap::new();
    assert(names_view(m0@) =~= Map::empty());
    let mut m = match read_named(&t.area_names, locs, m0) {
        Some(m) => m,
        None => return None,
    };
    assert(names_view(m@).len() == m@.len()) by {
        assert(names_view(m@).dom() =~= m@.dom());
    }
    if m.len() == locs.len() {
        return Some(m);
    }
    let ghost named = names_view(m@);
    let mut needed: Vec<u32> = Vec::new();
    let mut k: usize = 0;
    while k < locs.len()
        invariant
            k <= locs.len(),
            names_view(m@) == named,
            needed@ == missing_areas(locs@, named, k as nat),
        decreases locs.len() - k,
    {
        if !m.contains_key(&locs[k]) {
            needed.push(locs[k]);
        }
        k = k + 1;
    }
    let a = match read_areas(&t.areas, &needed) {
        Some(a) => a,
        None => return None,
    };
    let ln0: HashMap<u32, String> = HashMap::new();
    assert(names_view(ln0@) =~= Map::empty());
    let ln = match read_named(&t.location_names, &a.locations, ln0) {
        Some(x) => x,
        None => return None,
    };
    let ghost av = area_view(a);
    let ghost lnv = names_view(ln@);
    assert(area_names_of(t@, locs@) == fill_names(named, locs@, locs@.len(), av, lnv));
    let mut k: usize = 0;
    while k < locs.len()
        invariant
            k <= locs.len(),
            area_names_of(t@, locs@) == fill_names(named, locs@, locs@.len(), av, lnv),
            av == area_view(a),
            lnv == names_view(ln@),
            fill_names(named, locs@, k as nat, av, lnv) == Some(names_view(m@)),
        decreases locs.len() - k,
    {
        let loc = locs[k];
        if !m.contains_key(&loc) {
            match a.area_location.get(&loc) {
                None => {
                    proof { lemma_fill_none(named, locs@, (k + 1) as nat, locs@.len() as nat, av, lnv); }
                    return None;
                },
                Some(location) => {
                    let mut suffix = String::new();
                    match a.suffixes.get(&loc) {
                        Some(s) => {
                            suffix.append(" ");
                            suffix.append(s.as_str());
                        },
                        None => {},
                    }
                    let name = match ln.get(location) {
                        Some(n) => {
                            let mut x = n.clone();
                            x.append(suffix.as_str());
                            x
                        },
                        None => String::from_str("UNKNOWN"),
                    };
                    proof {
                        reveal_strlit(" ");
                        reveal_strlit("UNKNOWN");
                    }
                    assert(name@ == built_name(av, lnv, loc));
                    let ghost before = m@;
                    m.insert(loc, name);
                    assert(names_view(m@) =~= names_view(before).insert(loc, built_name(av, lnv, loc)));
                },
            }
        }
        k = k + 1;
    }
    Some(m)
}

/// Finds the encounter names, areas and conditions.
pub struct EncountersProvider {}

/// The records of the encounter table given as text (encounter, version,
/// area, slot, species, lowest and highest level), as
/// [`EncountersProvider::get_encounters`] takes them.
pub fn encounter_rows(text: &str) -> (r: Vec<Vec<String>>)
    ensures
        records_view(r@) == csv_records(text@),
{
    read_csv(text)
}

impl EncountersProvider {
    /// The provider.
    pub fn new() -> (r: Self) {
        EncountersProvider {}
    }

    /// The encounters with species `species` in one of `versions`, in
    /// record order; `None` when a record lacks a field or a number does
    /// not parse.
    pub fn get_encounter_list(species: u32, versions: &Vec<u32>, rows: &Vec<Vec<String>>) -> (r: Option<Vec<EncounterUnparsed>>)
        ensures
            match encounter_fold(records_view(rows@), rows@.len() as nat, species, versions@) {
                None => r is None,
                Some(x) => r matches Some(es) && es@ == x,
            },
    {
        let ghost rv = records_view(rows@);
        let mut es: Vec<EncounterUnparsed> = Vec::new();
        let mut i: usize = 0;
        while i < rows.len()
            invariant
                i <= rows.len(),
                rv == records_view(rows@),
                encounter_fold(rv, i as nat, species, versions@) == Some(es@),
            decreases rows.len() - i,
        {
            let r = &rows[i];
            assert(rv[i as int] == row_view(*r));
            match (field_num(r, 0), field_num(r, 1), field_num(r, 2), field_num(r, 3), field_num(r, 4), field_num(r, 5), field_num(r, 6)) {
                (Some(id), Some(version), Some(location), Some(slot), Some(mon), Some(min_lvl), Some(max_lvl)) => {
                    if mon == species && has(versions, version) {
                        es.push(EncounterUnparsed { id, version, location, slot, mon, min_lvl, max_lvl });
                    }
                },
                _ => {
                    proof { lemma_encounter_none(rv, (i + 1) as nat, rows@.len() as nat, species, versions@); }
                    return None;
                },
            }
            i = i + 1;
        }
        Some(es)
    }

    /// `es` without the encounters that repeat the one before them in all
    /// but their id.
    pub fn dedup(es: Vec<EncounterUnparsed>) -> (r: Vec<EncounterUnparsed>)
        ensures
            r@ == dedup_spec(es@, es@.len()),
    {
        let mut out: Vec<EncounterUnparsed> = Vec::new();
        let mut i: usize = 0;
        while i < es.len()
            invariant
                i <= es.len(),
                out@ == dedup_spec(es@, i as nat),
            decreases es.len() - i,
        {
            let e = es[i];
            let keep = if out.len() == 0 {
                true
            } else {
                let last = out[out.len() - 1];
                !(last.version == e.version && last.location == e.location && last.slot == e.slot
                    && last.mon == e.mon && last.min_lvl == e.min_lvl && last.max_lvl == e.max_lvl)
            };
            if keep {
                out.push(e);
            }
            i = i + 1;
        }
        out
    }

    /// A line for each encounter of `species` (in `game`, or in any version
    /// when none is given): who can be met, in which version, where, at
    /// which levels, by which method, how often, and under which condition.
    /// `None` when the game's versions are unknown, a record fails, or a
    /// name is missing.
    pub fn get_encounters(
        &self,
        species: u32,
        game: Option<Game>,
        names: &SpeciesProvider,
        versions: &VersionsProvider,
        encounter_rows: &Vec<Vec<String>>,
        t: &EncounterTables,
    ) -> (r: Option<Vec<String>>)
        requires
            versions.wf(),
        ensures
            match game {
                Some(g) if !(versions.games().contains_key(g) && versions.groups().contains_key(versions.games()[g])) =>
                    r is None,
                _ => {
                    let vs = match game {
                        Some(g) => versions.groups()[versions.games()[g]],
                        None => versions.ids(),
                    };
                    match encounter_fold(records_view(encounter_rows@), encounter_rows@.len() as nat, species, vs) {
                        None => r is None,
                        Some(es) => match parsed_encounters(t@, versions.names(), es) {
                            None => r is None,
                            Some(ps) => r matches Some(lines) && lines@.map_values(|l: String| l@)
                                == ps.map_values(|p: ParsedView| encounter_line(
                                    if names.names().contains_key(p.mon) { names.names()[p.mon] } else { Seq::empty() }, p)),
                        },
                    }
                },
            },
    {
        let vs = match game {
            Some(g) => {
                if !versions.knows_game(&g) {
                    return None;
                }
                versions.get_ids(&g)
            },
            None => versions.all_ids(),
        };
        let unparsed = match Self::get_encounter_list(species, &vs, encounter_rows) {
            Some(x) => x,
            None => return None,
        };
        let parsed = match Self::parse_encounters(&unparsed, t, versions) {
            Some(x) => x,
            None => return None,
        };
        let ghost pv = parsed_view(parsed@);
        let mut lines: Vec<String> = Vec::new();
        let mut i: usize = 0;
        while i < parsed.len()
            invariant
                i <= parsed.len(),
                pv == parsed_view(parsed@),
                lines@.map_values(|l: String| l@) == pv.subrange(0, i as int).map_values(|p: ParsedView| encounter_line(
                    if names.names().contains_key(p.mon) { names.names()[p.mon] } else { Seq::empty() }, p)),
            decreases parsed.len() - i,
        {
            let p = &parsed[i];
            let name = names.name(p.mon);
            let line = line_for(name.as_str(), p);
            assert(pv[i as int] == p@);
            let ghost before = lines@.map_values(|l: String| l@);
            let ghost lv = line@;
            lines.push(line);
            assert(lines@.map_values(|l: String| l@) =~= before.push(lv));
            i = i + 1;
            assert(lines@.map_values(|l: String| l@) =~= pv.subrange(0, i as int).map_values(|p: ParsedView| encounter_line(
                if names.names().contains_key(p.mon) { names.names()[p.mon] } else { Seq::empty() }, p)));
        }
        assert(pv.subrange(0, parsed.len() as int) =~= pv);
        Some(lines)
    }

    /// The encounters `es` with the names of their versions, areas, methods
    /// and conditions; `None` when a record of the tables fails or a name
    /// is missing.
    pub fn parse_encounters(es: &Vec<EncounterUnparsed>, t: &EncounterTables, versions: &VersionsProvider) -> (r: Option<Vec<EncounterParsed>>)
        ensures
            match parsed_encounters(t@, versions.names(), es@) {
                None => r is None,
                Some(x) => r matches Some(ps) && parsed_view(ps@) == x,
            },
    {
        match join_tables(es, t) {
            None => None,
            Some(jt) => parse_with(es, &jt, versions),
        }
    }
}

/// What the tables tell of the encounters' parts, as held while joining.
pub struct JoinTables {
    pub areas: HashMap<u32, String>,
    pub slots: SlotTables,
    pub method_names: HashMap<u32, String>,
    pub conds: CondTables,
    pub cond_names: HashMap<u32, String>,
}

/// The abstract value of a [`JoinTables`].
pub open spec fn join_view(j: JoinTables) -> JoinInfo {
    JoinInfo {
        areas: names_view(j.areas@),
        slots: SlotInfo { method: j.slots.method@, rarity: j.slots.rarity@, methods: j.slots.methods@ },
        method_names: names_view(j.method_names@),
        conds: CondInfo { condition: j.conds.condition@, conditions: j.conds.conditions@ },
        cond_names: names_view(j.cond_names@),
    }
}

fn join_tables(es: &Vec<EncounterUnparsed>, t: &EncounterTables) -> (r: Option<JoinTables>)
    ensures
        match join_info(t@, es@) {
            None => r is None,
            Some(x) => r matches Some(jt) && join_view(jt) == x,
        },
{
    let mut locs: Vec<u32> = Vec::new();
    let mut slots: Vec<u32> = Vec::new();
    let mut ids: Vec<u32> = Vec::new();
    let mut i: usize = 0;
    while i < es.len()
        invariant
            i <= es.len(),
            locs@ == es@.subrange(0, i as int).map_values(|e: EncounterUnparsed| e.location),
            slots@ == es@.subrange(0, i as int).map_values(|e: EncounterUnparsed| e.slot),
            ids@ == es@.subrange(0, i as int).map_values(|e: EncounterUnparsed| e.id),
        decreases es.len() - i,
    {
        locs.push(es[i].location);
        slots.push(es[i].slot);
        ids.push(es[i].id);
        i = i + 1;
        assert(locs@ =~= es@.subrange(0, i as int).map_values(|e: EncounterUnparsed| e.location));
        assert(slots@ =~= es@.subrange(0, i as int).map_values(|e: EncounterUnparsed| e.slot));
        assert(ids@ =~= es@.subrange(0, i as int).map_values(|e: EncounterUnparsed| e.id));
    }
    assert(es@.subrange(0, es.len() as int) =~= es@);
    let areas = match area_names(t, &locs) {
        Some(x) => x,
        None => return None,
    };
    let si = match read_slots(&t.slots, &slots) {
        Some(x) => x,
        None => return None,
    };
    let m0: HashMap<u32, String> = HashMap::new();
    assert(names_view(m0@) =~= Map::empty());
    let m1 = match read_ident(&t.methods, &si.methods, m0) {
        Some(x) => x,
        None => return None,
    };
    let mn = match read_named(&t.method_names, &si.methods, m1) {
        Some(x) => x,
        None => return None,
    };
    let ci = match read_conds(&t.conditions, &ids) {
        Some(x) => x,
        None => return None,
    };
    let c0: HashMap<u32, String> = HashMap::new();
    assert(names_view(c0@) =~= Map::empty());
    let cn = match read_named(&t.condition_names, &ci.conditions, c0) {
        Some(x) => x,
        None => return None,
    };
    Some(JoinTables { areas, slots: si, method_names: mn, conds: ci, cond_names: cn })
}

fn parse_single(e: EncounterUnparsed, jt: &JoinTables, versions: &VersionsProvider) -> (r: Option<EncounterParsed>)
    ensures
        match parse_one(join_view(*jt), versions.names(), e) {
            None => r is None,
            Some(x) => r matches Some(p) && p@ == x,
        },
{
    let cid: u32 = match jt.conds.condition.get(&e.id) {
        Some(c) => *c,
        None => 0,
    };
    let (method_id, rarity) = match (jt.slots.method.get(&e.slot), jt.slots.rarity.get(&e.slot)) {
        (Some(m), Some(r)) => (*m, *r),
        _ => return None,
    };
    let method = match jt.method_names.get(&method_id) {
        Some(x) => x.clone(),
        None => return None,
    };
    let condition = if cid == 0 {
        String::new()
    } else {
        match jt.cond_names.get(&cid) {
            Some(x) => x.clone(),
            None => return None,
        }
    };
    if !versions.has_name(e.version) {
        return None;
    }
    let version = versions.get_name(e.version);
    let location = match jt.areas.get(&e.location) {
        Some(x) => x.clone(),
        None => String::from_str("UNKNOWN"),
    };
    proof {
        reveal_strlit("UNKNOWN");
    }
    Some(EncounterParsed {
        id: e.id,
        version_id: e.version,
        version,
        location,
        slot: e.slot,
        method_id,
        method,
        rarity,
        mon: e.mon,
        min_lvl: e.min_lvl,
        max_lvl: e.max_lvl,
        condition,
        condition_id: cid,
    })
}

fn parse_with(es: &Vec<EncounterUnparsed>, jt: &JoinTables, versions: &VersionsProvider) -> (r: Option<Vec<EncounterParsed>>)
    ensures
        match parse_all(join_view(*jt), versions.names(), es@, es@.len()) {
            None => r is None,
            Some(x) => r matches Some(ps) && parsed_view(ps@) == x,
        },
{
    let ghost j = join_view(*jt);
    let ghost vn = versions.names();
    let mut res: Vec<EncounterParsed> = Vec::new();
    let mut i: usize = 0;
    while i < es.len()
        invariant
            i <= es.len(),
            vn == versions.names(),
            j == join_view(*jt),
            parse_all(j, vn, es@, i as nat) == Some(parsed_view(res@)),
        decreases es.len() - i,
    {
        match parse_single(es[i], jt, versions) {
            None => {
                proof { lemma_parse_none(j, vn, es@, (i + 1) as nat, es@.len() as nat); }
                return None;
            },
            Some(p) => {
                let ghost before = parsed_view(res@);
                res.push(p);
                assert(parsed_view(res@) =~= before.push(p@));
            },
        }
        i = i + 1;
    }
    Some(res)
}


/// The first `k` encounters of `es`, without those that repeat the one
/// kept before them in all but their id.
pub open spec fn dedup_spec(es: Seq<EncounterUnparsed>, k: nat) -> Seq<EncounterUnparsed>
    decreases k,
{
    if k == 0 {
        Seq::empty()
    } else {
        let prev = dedup_spec(es, (k - 1) as nat);
        let e = es[k - 1];
        if prev.len() > 0 && {
            let l = prev.last();
            l.version == e.version && l.location == e.location && l.slot == e.slot && l.mon == e.mon
                && l.min_lvl == e.min_lvl && l.max_lvl == e.max_lvl
        } {
            prev
        } else {
            prev.push(e)
        }
    }
}

/// The line for an encounter of the species named `name`.
pub open spec fn encounter_line(name: Seq<char>, p: ParsedView) -> Seq<char> {
    name + " can be encountered in "@ + p.version + " at "@ + p.location + " @ lvl. "@ + decimal(p.min_lvl as nat) + "-"@
        + decimal(p.max_lvl as nat) + " by "@ + p.method + " at "@ + decimal(p.rarity as nat) + "%"@
        + if p.condition.len() > 0 { " ("@ + p.condition + ")"@ } else { Seq::empty() }
}

fn line_for(name: &str, p: &EncounterParsed) -> (r: String)
    ensures
        r@ == encounter_line(name@, p@),
{
    let mut s = String::from_str(name);
    s.append(" can be encountered in ");
    s.append(p.version.as_str());
    s.append(" at ");
    s.append(p.location.as_str());
    s.append(" @ lvl. ");
    s.append(u64_to_string(p.min_lvl as u64).as_str());
    s.append("-");
    s.append(u64_to_string(p.max_lvl as u64).as_str());
    s.append(" by ");
    s.append(p.method.as_str());
    s.append(" at ");
    s.append(u64_to_string(p.rarity as u64).as_str());
    s.append("%");
    if p.condition.as_str().unicode_len() > 0 {
        s.append(" (");
        s.append(p.condition.as_str());
        s.append(")");
    }
    s
}

impl EncounterTables {
    /// The tables read from their texts: area names, areas, location names,
    /// slots, methods, method names, condition values and condition names.
    pub fn from_csv(
        area_names: &str,
        areas: &str,
        location_names: &str,
        slots: &str,
        methods: &str,
        method_names: &str,
        conditions: &str,
        condition_names: &str,
    ) -> (r: Self)
        ensures
            r@ == (TablesView {
                area_names: csv_records(area_names@),
                areas: csv_records(areas@),
                location_names: csv_records(location_names@),
                slots: csv_records(slots@),
                methods: csv_records(methods@),
                method_names: csv_records(method_names@),
                conditions: csv_records(conditions@),
                condition_names: csv_records(condition_names@),
            }),
    {
        EncounterTables {
            area_names: read_csv(area_names),
            areas: read_csv(areas),
            location_names: read_csv(location_names),
            slots: read_csv(slots),
            methods: read_csv(methods),
            method_names: read_csv(method_names),
            conditions: read_csv(conditions),
            condition_names: read_csv(condition_names),
        }
    }
}

} // verus!
