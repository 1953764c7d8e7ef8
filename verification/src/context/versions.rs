//! The versions of each game: the games (version groups) the bot knows, the
//! versions in each, and their names.
use vstd::prelude::*;
use std::collections::HashMap;
use crate::app::states::Game;
use crate::context::{read_csv, csv_records, records_view, parse_u32, parse_u32_spec, str_eq};

verus! {

broadcast use vstd::std_specs::hash::group_hash_axioms;

/// The game of a version group's identifier, for the games the bot knows.
pub open spec fn game_of_group(version: Seq<char>) -> Option<Game> {
    if version == "ruby-sapphire"@ {
        Some(Game::RubySapphire)
    } else if version == "emerald"@ {
        Some(Game::Emerald)
    } else if version == "firered-leafgreen"@ {
        Some(Game::FireRedLeafGreen)
    } else if version == "diamond-pearl"@ {
        Some(Game::DiamondPearl)
    } else if version == "platinum"@ {
        Some(Game::Platinum)
    } else if version == "heartgold-soulsilver"@ {
        Some(Game::HeartGoldSoulSilver)
    } else if version == "black-white"@ {
        Some(Game::BlackWhite)
    } else if version == "black-2-white-2"@ {
        Some(Game::Black2White2)
    } else if version == "ultra-sun-ultra-moon"@ {
        Some(Game::UltraSunUltraMoon)
    } else {
        None
    }
}

/// The games and groups read from the first `n` records of the
/// version-group table (group, identifier, ...): each known game is mapped
/// to its group, and each such group starts with no versions; `None` when a
/// record lacks a field or a number does not parse.
pub open spec fn groups_read(rows: Seq<Seq<Seq<char>>>, n: nat) -> Option<(Map<Game, u32>, Map<u32, Seq<u32>>)>
    decreases n,
{
    if n == 0 {
        Some((Map::empty(), Map::empty()))
    } else {
        match groups_read(rows, (n - 1) as nat) {
            None => None,
            Some((games, groups)) => {
                let r = rows[n - 1];
                match if r.len() >= 1 { parse_u32_spec(r[0]) } else { None } {
                    None => None,
                    Some(id) => if r.len() < 2 {
                        None
                    } else {
                        match game_of_group(r[1]) {
                            Some(g) => Some((games.insert(g, id), groups.insert(id, Seq::empty()))),
                            None => Some((games, groups)),
                        }
                    },
                }
            },
        }
    }
}

/// The versions read from the first `n` records of the version table
/// (version, group, name), on top of `groups`: a version of a known group
/// is added to the group and named; `None` when a record lacks a field or a
/// number does not parse.
pub open spec fn versions_read(rows: Seq<Seq<Seq<char>>>, n: nat, groups: Map<u32, Seq<u32>>)
    -> Option<(Map<u32, Seq<u32>>, Map<u32, Seq<char>>)>
    decreases n,
{
    if n == 0 {
        Some((groups, Map::empty()))
    } else {
        match versions_read(rows, (n - 1) as nat, groups) {
            None => None,
            Some((gs, names)) => {
                let r = rows[n - 1];
                if r.len() < 3 {
                    None
                } else {
                    match (parse_u32_spec(r[0]), parse_u32_spec(r[1])) {
                        (Some(id), Some(group)) => if gs.contains_key(group) {
                            Some((gs.insert(group, gs[group].push(id)), names.insert(id, r[2])))
                        } else {
                            Some((gs, names))
                        },
                        _ => None,
                    }
                }
            },
        }
    }
}

/// The versions of each game, and their names.
pub struct VersionsProvider {
    game_mapping: Vec<(Game, u32)>,
    group_mapping: HashMap<u32, Vec<u32>>,
    name_mapping: HashMap<u32, String>,
    name_ids: Vec<u32>,
}

/// The map that a list of (game, group) pairs stands for.
pub open spec fn pairs_map(ps: Seq<(Game, u32)>) -> Map<Game, u32>
    decreases ps.len(),
{
    if ps.len() == 0 {
        Map::empty()
    } else {
        pairs_map(ps.drop_last()).insert(ps.last().0, ps.last().1)
    }
}

fn insert_pair(ps: &mut Vec<(Game, u32)>, g: Game, id: u32)
    ensures
        pairs_map(final(ps)@) == pairs_map(old(ps)@).insert(g, id),
{
    ps.push((g, id));
    assert(final(ps)@.drop_last() =~= old(ps)@);
}

fn lookup_pair(ps: &Vec<(Game, u32)>, g: Game) -> (r: Option<u32>)
    ensures
        match r {
            Some(id) => pairs_map(ps@).contains_key(g) && pairs_map(ps@)[g] == id,
            None => !pairs_map(ps@).contains_key(g),
        },
    decreases ps@.len(),
{
    let mut i: usize = ps.len();
    while i > 0
        invariant
            i <= ps.len(),
            forall|j: int| i <= j < ps.len() ==> ps@[j].0 != g,
        decreases i,
    {
        if ps[i - 1].0 == g {
            proof { lemma_pairs_last(ps@, g, (i - 1) as int); }
            return Some(ps[i - 1].1);
        }
        i = i - 1;
    }
    proof { lemma_pairs_absent(ps@, g); }
    None
}

proof fn lemma_pairs_last(ps: Seq<(Game, u32)>, g: Game, k: int)
    requires
        0 <= k < ps.len(),
        ps[k].0 == g,
        forall|j: int| k < j < ps.len() ==> ps[j].0 != g,
    ensures
        pairs_map(ps).contains_key(g),
        pairs_map(ps)[g] == ps[k].1,
    decreases ps.len(),
{
    if k < ps.len() - 1 {
        lemma_pairs_last(ps.drop_last(), g, k);
    }
}

proof fn lemma_pairs_absent(ps: Seq<(Game, u32)>, g: Game)
    requires
        forall|j: int| 0 <= j < ps.len() ==> ps[j].0 != g,
    ensures
        !pairs_map(ps).contains_key(g),
    decreases ps.len(),
{
    if ps.len() > 0 {
        lemma_pairs_absent(ps.drop_last(), g);
    }
}

fn game_from_group(version: &str) -> (r: Option<Game>)
    ensures
        r == game_of_group(version@),
{
    if str_eq(version, "ruby-sapphire") {
        Some(Game::RubySapphire)
    } else if str_eq(version, "emerald") {
        Some(Game::Emerald)
    } else if str_eq(version, "firered-leafgreen") {
        Some(Game::FireRedLeafGreen)
    } else if str_eq(version, "diamond-pearl") {
        Some(Game::DiamondPearl)
    } else if str_eq(version, "platinum") {
        Some(Game::Platinum)
    } else if str_eq(version, "heartgold-soulsilver") {
        Some(Game::HeartGoldSoulSilver)
    } else if str_eq(version, "black-white") {
        Some(Game::BlackWhite)
    } else if str_eq(version, "black-2-white-2") {
        Some(Game::Black2White2)
    } else if str_eq(version, "ultra-sun-ultra-moon") {
        Some(Game::UltraSunUltraMoon)
    } else {
        None
    }
}

proof fn lemma_groups_stay_none(rows: Seq<Seq<Seq<char>>>, k: nat, n: nat)
    requires
        k <= n,
        groups_read(rows, k) is None,
    ensures
        groups_read(rows, n) is None,
    decreases n - k,
{
    if k < n {
        lemma_groups_stay_none(rows, k, (n - 1) as nat);
    }
}

proof fn lemma_versions_stay_none(rows: Seq<Seq<Seq<char>>>, k: nat, n: nat, groups: Map<u32, Seq<u32>>)
    requires
        k <= n,
        versions_read(rows, k, groups) is None,
    ensures
        versions_read(rows, n, groups) is None,
    decreases n - k,
{
    if k < n {
        lemma_versions_stay_none(rows, k, (n - 1) as nat, groups);
    }
}

/// The abstract value of a map of groups.
pub open spec fn groups_view(m: Map<u32, Vec<u32>>) -> Map<u32, Seq<u32>> {
    m.map_values(|v: Vec<u32>| v@)
}

/// The abstract value of a map of names.
pub open spec fn names_view(m: Map<u32, String>) -> Map<u32, Seq<char>> {
    m.map_values(|s: String| s@)
}

impl VersionsProvider {
    /// The group of each game.
    pub closed spec fn games(&self) -> Map<Game, u32> {
        pairs_map(self.game_mapping@)
    }

    /// The versions of each group.
    pub closed spec fn groups(&self) -> Map<u32, Seq<u32>> {
        groups_view(self.group_mapping@)
    }

    /// The name of each version.
    pub closed spec fn names(&self) -> Map<u32, Seq<char>> {
        names_view(self.name_mapping@)
    }

    /// The named versions, in the order they were first named.
    pub closed spec fn ids(&self) -> Seq<u32> {
        self.name_ids@
    }

    /// The listed versions are the named ones, each once, and the named
    /// versions are exactly those in the groups' lists.
    pub closed spec fn wf(&self) -> bool {
        &&& self.name_ids@.no_duplicates()
        &&& forall|x: u32| self.name_ids@.contains(x) <==> self.name_mapping@.contains_key(x)
        &&& forall|x: u32| #[trigger] self.names().contains_key(x) <==> in_some_group(self.groups(), x)
    }

    /// The provider of the records of the version-group and version tables:
    /// every known game maps to its group, with the group's versions, and
    /// `Game::NoGame` maps to group 0; `None` when a record lacks a field or
    /// a number does not parse.
    pub fn from_records(group_rows: &Vec<Vec<String>>, version_rows: &Vec<Vec<String>>) -> (r: Option<Self>)
        ensures
            match groups_read(records_view(group_rows@), group_rows@.len() as nat) {
                None => r is None,
                Some((games, groups)) => match versions_read(records_view(version_rows@), version_rows@.len() as nat, groups) {
                    None => r is None,
                    Some((gs, names)) => r matches Some(p) && p.wf() && p.games() == games.insert(Game::NoGame, 0)
                        && p.groups() == gs && p.names() == names,
                },
            },
    {
        let ghost gv = records_view(group_rows@);
        let mut game_mapping: Vec<(Game, u32)> = Vec::new();
        let mut group_mapping: HashMap<u32, Vec<u32>> = HashMap::new();
        let mut i: usize = 0;
        assert(pairs_map(game_mapping@) =~= Map::empty());
        assert(groups_view(group_mapping@) =~= Map::empty());
        while i < group_rows.len()
            invariant
                i <= group_rows.len(),
                gv == records_view(group_rows@),
                groups_read(gv, i as nat) == Some((pairs_map(game_mapping@), groups_view(group_mapping@))),
            decreases group_rows.len() - i,
        {
            let r = &group_rows[i];
            assert(gv[i as int] == r@.map_values(|f: String| f@));
            if r.len() < 1 {
                proof { lemma_groups_stay_none(gv, (i + 1) as nat, group_rows@.len() as nat); }
                return None;
            }
            let id = match parse_u32(r[0].as_str()) {
                Some(id) => id,
                None => {
                    proof { lemma_groups_stay_none(gv, (i + 1) as nat, group_rows@.len() as nat); }
                    return None;
                },
            };
            if r.len() < 2 {
                proof { lemma_groups_stay_none(gv, (i + 1) as nat, group_rows@.len() as nat); }
                return None;
            }
            match game_from_group(r[1].as_str()) {
                Some(g) => {
                    insert_pair(&mut game_mapping, g, id);
                    let ghost before = group_mapping@;
                    group_mapping.insert(id, Vec::new());
                    assert(groups_view(group_mapping@) =~= groups_view(before).insert(id, Seq::empty()));
                },
                None => {},
            }
            i = i + 1;
        }
        let ghost groups0 = groups_view(group_mapping@);
        let ghost vv = records_view(version_rows@);
        let mut name_mapping: HashMap<u32, String> = HashMap::new();
        let mut name_ids: Vec<u32> = Vec::new();
        let mut i: usize = 0;
        assert(names_view(name_mapping@) =~= Map::empty());
        while i < version_rows.len()
            invariant
                i <= version_rows.len(),
                vv == records_view(version_rows@),
                gv == records_view(group_rows@),
                groups_read(gv, group_rows@.len() as nat) == Some((pairs_map(game_mapping@), groups0)),
                versions_read(vv, i as nat, groups0) == Some((groups_view(group_mapping@), names_view(name_mapping@))),
                name_ids@.no_duplicates(),
                forall|x: u32| name_ids@.contains(x) <==> name_mapping@.contains_key(x),
            decreases version_rows.len() - i,
        {
            let r = &version_rows[i];
            assert(vv[i as int] == r@.map_values(|f: String| f@));
            if r.len() < 3 {
                proof { lemma_versions_stay_none(vv, (i + 1) as nat, version_rows@.len() as nat, groups0); }
                return None;
            }
            match (parse_u32(r[0].as_str()), parse_u32(r[1].as_str())) {
                (Some(id), Some(group)) => {
                    if group_mapping.contains_key(&group) {
                        let ghost gbefore = group_mapping@;
                        let ghost nbefore = name_mapping@;
                        let mut ids = match group_mapping.remove(&group) {
                            Some(v) => v,
                            None => Vec::new(),
                        };
                        ids.push(id);
                        group_mapping.insert(group, ids);
                        assert(groups_view(group_mapping@) =~= groups_view(gbefore).insert(group, groups_view(gbefore)[group].push(id)));
                        let ghost ibefore = name_ids@;
                        assert(forall|x: u32| ibefore.contains(x) <==> nbefore.contains_key(x));
                        if !name_mapping.contains_key(&id) {
                            name_ids.push(id);
                            assert(!ibefore.contains(id));
                            assert forall|a: int, b: int| 0 <= a < b < name_ids@.len() implies name_ids@[a] != name_ids@[b] by {
                                if b == ibefore.len() {
                                    assert(ibefore[a] == name_ids@[a]);
                                } else {
                                    assert(ibefore[a] != ibefore[b]);
                                }
                            }
                            assert forall|x: u32| #[trigger] name_ids@.contains(x) <==> (ibefore.contains(x) || x == id) by {
                                if ibefore.contains(x) {
                                    let k = choose|k: int| 0 <= k < ibefore.len() && ibefore[k] == x;
                                    assert(name_ids@[k] == x);
                                }
                                if x == id {
                                    assert(name_ids@[ibefore.len() as int] == x);
                                }
                            }
                        }
                        name_mapping.insert(id, r[2].clone());
                        assert(names_view(name_mapping@) =~= names_view(nbefore).insert(id, r@[2]@));
                        assert forall|x: u32| name_ids@.contains(x) <==> name_mapping@.contains_key(x) by {
                            assert(name_mapping@.contains_key(x) <==> (nbefore.contains_key(x) || x == id));
                            assert(ibefore.contains(x) <==> nbefore.contains_key(x));
                            assert(ibefore.contains(id) <==> nbefore.contains_key(id));
                            assert(name_ids@.contains(x) <==> (ibefore.contains(x) || x == id));
                        }
                    }
                },
                _ => {
                    proof { lemma_versions_stay_none(vv, (i + 1) as nat, version_rows@.len() as nat, groups0); }
                    return None;
                },
            }
            i = i + 1;
        }
        proof {
            lemma_groups_read_shape(gv, group_rows@.len() as nat);
            lemma_versions_read_union(vv, version_rows@.len() as nat, groups0, groups_view(group_mapping@),
                names_view(name_mapping@));
        }
        insert_pair(&mut game_mapping, Game::NoGame, 0);
        Some(VersionsProvider { game_mapping, group_mapping, name_mapping, name_ids })
    }

    /// The provider of the version-group and version tables given as text.
    pub fn new(groups_csv: &str, versions_csv: &str) -> (r: Option<Self>)
        ensures
            match groups_read(csv_records(groups_csv@), csv_records(groups_csv@).len()) {
                None => r is None,
                Some((games, groups)) => match versions_read(csv_records(versions_csv@), csv_records(versions_csv@).len(), groups) {
                    None => r is None,
                    Some((gs, names)) => r matches Some(p) && p.wf() && p.games() == games.insert(Game::NoGame, 0)
                        && p.groups() == gs && p.names() == names,
                },
            },
    {
        let g = read_csv(groups_csv);
        let v = read_csv(versions_csv);
        Self::from_records(&g, &v)
    }

    /// Every named version, each once.
    pub fn all_ids(&self) -> (r: Vec<u32>)
        requires
            self.wf(),
        ensures
            r@ == self.ids(),
            r@.no_duplicates(),
            r@.to_set() == self.names().dom(),
            forall|x: u32| #[trigger] r@.contains(x) <==> in_some_group(self.groups(), x),
    {
        let r = self.name_ids.clone();
        assert(r@ =~= self.name_ids@);
        assert(r@.to_set() =~= self.names().dom());
        assert forall|x: u32| #[trigger] r@.contains(x) <==> in_some_group(self.groups(), x) by {
            assert(self.name_ids@.contains(x) <==> self.name_mapping@.contains_key(x));
            assert(self.names().contains_key(x) <==> in_some_group(self.groups(), x));
        }
        r
    }

    /// Whether the versions of `game` are known.
    pub fn knows_game(&self, game: &Game) -> (r: bool)
        ensures
            r == (self.games().contains_key(*game) && self.groups().contains_key(self.games()[*game])),
    {
        match lookup_pair(&self.game_mapping, *game) {
            Some(id) => self.group_mapping.contains_key(&id),
            None => false,
        }
    }

    /// The versions of `game`.
    pub fn get_ids(&self, game: &Game) -> (r: Vec<u32>)
        requires
            self.games().contains_key(*game),
            self.groups().contains_key(self.games()[*game]),
        ensures
            r@ == self.groups()[self.games()[*game]],
    {
        match lookup_pair(&self.game_mapping, *game) {
            Some(id) => match self.group_mapping.get(&id) {
                Some(v) => {
                    let r = v.clone();
                    assert(r@ =~= v@);
                    r
                },
                None => Vec::new(),
            },
            None => Vec::new(),
        }
    }

    /// Whether version `id` has a name.
    pub fn has_name(&self, id: u32) -> (r: bool)
        ensures
            r == self.names().contains_key(id),
    {
        self.name_mapping.contains_key(&id)
    }

    /// The name of version `id`.
    pub fn get_name(&self, id: u32) -> (r: String)
        requires
            self.names().contains_key(id),
        ensures
            r@ == self.names()[id],
    {
        match self.name_mapping.get(&id) {
            Some(s) => s.clone(),
            None => String::new(),
        }
    }
}

/// Each group read from the version-group table starts empty, no game read
/// is `Game::NoGame`, and every game read maps to a group read.
proof fn lemma_groups_read_shape(rows: Seq<Seq<Seq<char>>>, n: nat)
    ensures
        match groups_read(rows, n) {
            Some((games, groups)) => {
                &&& forall|k: u32| #[trigger] groups.contains_key(k) ==> groups[k].len() == 0
                &&& !games.contains_key(Game::NoGame)
                &&& forall|g: Game| #[trigger] games.contains_key(g) ==> groups.contains_key(games[g])
            },
            None => true,
        },
    decreases n,
{
    if n > 0 {
        lemma_groups_read_shape(rows, (n - 1) as nat);
        match groups_read(rows, (n - 1) as nat) {
            None => {},
            Some((games, groups)) => {
                let r = rows[n - 1];
                if r.len() >= 2 {
                    match parse_u32_spec(r[0]) {
                        Some(id) => match game_of_group(r[1]) {
                            Some(g) => {
                                let games2 = games.insert(g, id);
                                let groups2 = groups.insert(id, Seq::empty());
                                assert forall|h: Game| #[trigger] games2.contains_key(h) implies groups2.contains_key(games2[h]) by {
                                    if h != g {
                                        assert(games.contains_key(h));
                                    }
                                }
                            },
                            None => {},
                        },
                        None => {},
                    }
                }
            },
        }
    }
}

/// Whether `x` is among the versions of one of the groups.
pub open spec fn in_some_group(gs: Map<u32, Seq<u32>>, x: u32) -> bool {
    exists|k: u32| gs.contains_key(k) && #[trigger] gs[k].contains(x)
}

/// Reading versions keeps the groups, and a version is named exactly when
/// it is in one of the groups, where the groups start empty.
proof fn lemma_versions_read_union(rows: Seq<Seq<Seq<char>>>, n: nat, groups: Map<u32, Seq<u32>>,
    gs: Map<u32, Seq<u32>>, names: Map<u32, Seq<char>>)
    requires
        forall|k: u32| #[trigger] groups.contains_key(k) ==> groups[k].len() == 0,
        versions_read(rows, n, groups) == Some((gs, names)),
    ensures
        gs.dom() == groups.dom(),
        forall|x: u32| #[trigger] names.contains_key(x) <==> in_some_group(gs, x),
    decreases n,
{
    if n == 0 {
        assert forall|x: u32| #[trigger] names.contains_key(x) <==> in_some_group(gs, x) by {
            if in_some_group(gs, x) {
                let k = choose|k: u32| gs.contains_key(k) && #[trigger] gs[k].contains(x);
                assert(groups[k].len() == 0);
            }
        }
    } else {
        let prev = versions_read(rows, (n - 1) as nat, groups);
        assert(prev is Some);
        let (g0, n0) = prev->0;
        lemma_versions_read_union(rows, (n - 1) as nat, groups, g0, n0);
        let r = rows[n - 1];
        assert(r.len() >= 3);
        let id = parse_u32_spec(r[0])->0;
        let group = parse_u32_spec(r[1])->0;
        if g0.contains_key(group) {
            let old_g = g0[group];
            assert(gs == g0.insert(group, old_g.push(id)));
            assert(names == n0.insert(id, r[2]));
            assert(gs.dom() =~= groups.dom());
            assert forall|x: u32| #[trigger] names.contains_key(x) <==> in_some_group(gs, x) by {
                if names.contains_key(x) {
                    if x == id {
                        assert(gs[group][old_g.len() as int] == id);
                        assert(gs[group].contains(x));
                    } else {
                        assert(n0.contains_key(x));
                        let k = choose|k: u32| g0.contains_key(k) && #[trigger] g0[k].contains(x);
                        if k == group {
                            let j = choose|j: int| 0 <= j < old_g.len() && old_g[j] == x;
                            assert(gs[group][j] == x);
                            assert(gs[group].contains(x));
                        } else {
                            assert(gs[k] == g0[k]);
                            assert(gs[k].contains(x));
                        }
                    }
                }
                if in_some_group(gs, x) {
                    let k = choose|k: u32| gs.contains_key(k) && #[trigger] gs[k].contains(x);
                    if k == group {
                        let j = choose|j: int| 0 <= j < gs[k].len() && gs[k][j] == x;
                        if j < old_g.len() {
                            assert(old_g[j] == x);
                            assert(g0[group].contains(x));
                            assert(n0.contains_key(x));
                        }
                    } else {
                        assert(g0[k].contains(x));
                        assert(n0.contains_key(x));
                    }
                }
            }
        } else {
            assert(gs == g0 && names == n0);
        }
    }
}

/// The named versions (those `all_ids` lists, and whose names `get_name`
/// gives) are exactly the versions of the games other than `Game::NoGame`
/// (those `get_ids` gives), where every group is the group of such a game.
pub proof fn law_named_versions_are_the_games_versions(p: VersionsProvider)
    requires
        p.wf(),
        forall|k: u32| #[trigger] p.groups().contains_key(k) ==> exists|g: Game|
            g != Game::NoGame && p.games().contains_key(g) && p.games()[g] == k,
    ensures
        forall|x: u32| p.names().contains_key(x) <==> exists|g: Game|
            g != Game::NoGame && p.games().contains_key(g) && p.groups().contains_key(p.games()[g])
                && #[trigger] p.groups()[p.games()[g]].contains(x),
{
    assert forall|x: u32| p.names().contains_key(x) <==> exists|g: Game|
        g != Game::NoGame && p.games().contains_key(g) && p.groups().contains_key(p.games()[g])
            && #[trigger] p.groups()[p.games()[g]].contains(x) by {
        if p.names().contains_key(x) {
            assert(in_some_group(p.groups(), x));
            let k = choose|k: u32| p.groups().contains_key(k) && #[trigger] p.groups()[k].contains(x);
            let g = choose|g: Game| g != Game::NoGame && p.games().contains_key(g) && p.games()[g] == k;
            assert(p.groups()[p.games()[g]].contains(x));
        }
        if exists|g: Game| g != Game::NoGame && p.games().contains_key(g) && p.groups().contains_key(p.games()[g])
            && #[trigger] p.groups()[p.games()[g]].contains(x) {
            let g = choose|g: Game| g != Game::NoGame && p.games().contains_key(g) && p.groups().contains_key(p.games()[g])
                && #[trigger] p.groups()[p.games()[g]].contains(x);
            assert(in_some_group(p.groups(), x));
        }
    }
}

} // verus!
