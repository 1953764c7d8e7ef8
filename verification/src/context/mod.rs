//! The reference data of the games: species names, versions, and where each
//! species is met, read from the comma-separated tables of the PokeAPI data
//! set. The tables are handed in as text.
use vstd::prelude::*;
use crate::app::states::Game;
use crate::text::{decimal, zero_padded, u64_to_padded_string};

pub mod species;
pub mod versions;
pub mod encounters;

verus! {

/// The records of a comma-separated text, as the `csv` crate reads them
/// with a header line: each record is the list of its fields, and records
/// that the crate reports as errors (such as one with a different number of
/// fields than the header) are left out.
pub uninterp spec fn csv_records(text: Seq<char>) -> Seq<Seq<Seq<char>>>;

/// The abstract value of a list of records.
pub open spec fn records_view(rows: Seq<Vec<String>>) -> Seq<Seq<Seq<char>>> {
    rows.map_values(|row: Vec<String>| row@.map_values(|f: String| f@))
}

/// Reads the records of a comma-separated text with `csv::ReaderBuilder`
/// (with a header line), keeping each record that `StringRecordsIter`
/// yields as `Ok` (as `flatten` does), its fields as strings. The contract names the result:
/// the records depend on the text alone.
#[verifier::external_body]
pub(crate) fn read_csv(text: &str) -> (r: Vec<Vec<String>>)
    ensures
        records_view(r@) == csv_records(text@),
{
    let mut rdr = csv::ReaderBuilder::new().has_headers(true).from_reader(text.as_bytes());
    rdr.records().flatten().map(|rec| rec.iter().map(|f| f.to_string()).collect()).collect()
}

/// Whether `c` is a decimal digit.
pub open spec fn is_digit(c: char) -> bool {
    '0' <= c && c <= '9'
}

/// The value of the decimal digits `s`.
pub open spec fn digits_value(s: Seq<char>) -> nat
    decreases s.len(),
{
    if s.len() == 0 {
        0
    } else {
        digits_value(s.drop_last()) * 10 + (s.last() as nat - '0' as nat) as nat
    }
}

/// The number that `str::parse::<u32>` reads from `s`: an optional `+`
/// followed by one or more digits, whose value fits in a `u32`; `None`
/// otherwise.
pub open spec fn parse_u32_spec(s: Seq<char>) -> Option<u32> {
    parse_digits(if s.len() > 0 && s[0] == '+' { s.drop_first() } else { s })
}

/// The number that the digits `d` make, when there are some, all digits,
/// and their value fits in a `u32`.
pub open spec fn parse_digits(d: Seq<char>) -> Option<u32> {
    if d.len() > 0 && (forall|i: int| 0 <= i < d.len() ==> is_digit(#[trigger] d[i])) && digits_value(d) <= u32::MAX {
        Some(digits_value(d) as u32)
    } else {
        None
    }
}

proof fn lemma_digits_grow(d: Seq<char>, k: int)
    requires
        0 <= k <= d.len(),
        forall|i: int| 0 <= i < d.len() ==> is_digit(#[trigger] d[i]),
    ensures
        digits_value(d.subrange(0, k)) <= digits_value(d),
    decreases d.len() - k,
{
    if k < d.len() {
        lemma_digits_grow(d, k + 1);
        assert(d.subrange(0, k + 1).drop_last() =~= d.subrange(0, k));
    } else {
        assert(d.subrange(0, k) =~= d);
    }
}

/// Reads a `u32` as `str::parse` does.
pub fn parse_u32(s: &str) -> (r: Option<u32>)
    ensures
        r == parse_u32_spec(s@),
{
    let n = s.unicode_len();
    let start: usize = if n > 0 && s.get_char(0) == '+' { 1 } else { 0 };
    let ghost d = if s@.len() > 0 && s@[0] == '+' { s@.drop_first() } else { s@ };
    assert(d =~= s@.subrange(start as int, n as int));
    if start == n {
        return None;
    }
    let mut acc: u64 = 0;
    let mut i: usize = start;
    while i < n
        invariant
            start <= i <= n,
            n == s@.len(),
            d =~= s@.subrange(start as int, n as int),
            d == (if s@.len() > 0 && s@[0] == '+' { s@.drop_first() } else { s@ }),
            acc == digits_value(d.subrange(0, i - start)),
            acc <= u32::MAX,
            forall|j: int| 0 <= j < i - start ==> is_digit(#[trigger] d[j]),
        decreases n - i,
    {
        let c = s.get_char(i);
        assert(d[i - start] == c);
        if !(c >= '0' && c <= '9') {
            assert(!is_digit(d[i - start]));
            assert(!(forall|j: int| 0 <= j < d.len() ==> is_digit(#[trigger] d[j])));
            return None;
        }
        let v: u64 = (c as u64) - ('0' as u64);
        assert(v == (c as nat - '0' as nat));
        let ghost pre = d.subrange(0, i + 1 - start);
        assert(pre.drop_last() =~= d.subrange(0, i - start));
        assert(pre.last() == c);
        assert(digits_value(pre) == acc * 10 + v);
        let next: u64 = acc * 10 + v;
        if next > 0xffff_ffff {
            proof {
                if forall|j: int| 0 <= j < d.len() ==> is_digit(#[trigger] d[j]) {
                    lemma_digits_grow(d, i + 1 - start);
                }
            }
            return None;
        }
        acc = next;
        i = i + 1;
    }
    assert(d.subrange(0, n - start) =~= d);
    Some(acc as u32)
}

/// Whether two strings are equal.
pub fn str_eq(a: &str, b: &str) -> (r: bool)
    ensures
        r == (a@ == b@),
{
    let n = a.unicode_len();
    if n != b.unicode_len() {
        return false;
    }
    let mut i: usize = 0;
    while i < n
        invariant
            i <= n,
            n == a@.len(),
            n == b@.len(),
            forall|j: int| 0 <= j < i ==> a@[j] == b@[j],
        decreases n - i,
    {
        if a.get_char(i) != b.get_char(i) {
            return false;
        }
        i = i + 1;
    }
    assert(a@ =~= b@);
    true
}

/// The directory of a game's sprites, for the games that have one.
pub open spec fn sprite_dir(game: Game) -> Option<Seq<char>> {
    match game {
        Game::FireRedLeafGreen => Some("frlg"@),
        Game::DiamondPearl => Some("dp"@),
        Game::RubySapphire => Some("rs"@),
        Game::HeartGoldSoulSilver => Some("hgss"@),
        Game::Black2White2 => Some("bw"@),
        Game::BlackWhite => Some("bw"@),
        Game::UltraSunUltraMoon => Some("usum"@),
        _ => None,
    }
}

/// The path of a species' sprite: the game's directory, then the number
/// padded to three digits, then `_shiny` for the shiny one.
pub open spec fn sprite_path_text(dir: Seq<char>, species: u32, shiny: bool) -> Seq<char> {
    "../reference/images/"@ + dir + "/"@ + zero_padded(decimal(species as nat), 3)
        + if shiny { "_shiny.png"@ } else { ".png"@ }
}

/// The lookup tables of the games, and the paths of their sprites.
pub struct PkContext {
    pub species: species::SpeciesProvider,
    pub encounters: encounters::EncountersProvider,
    pub versions: versions::VersionsProvider,
}

impl PkContext {
    /// Gathers the tables.
    pub fn new(species: species::SpeciesProvider, versions: versions::VersionsProvider) -> (r: Self)
        ensures
            r.species == species,
            r.versions == versions,
    {
        PkContext { species, encounters: encounters::EncountersProvider::new(), versions }
    }

    /// The versions of each game.
    pub fn versions(&self) -> (r: &versions::VersionsProvider)
        ensures
            *r == self.versions,
    {
        &self.versions
    }

    /// The species names.
    pub fn species(&self) -> (r: &species::SpeciesProvider)
        ensures
            *r == self.species,
    {
        &self.species
    }

    /// The encounter tables.
    pub fn encounters(&self) -> (r: &encounters::EncountersProvider)
        ensures
            *r == self.encounters,
    {
        &self.encounters
    }


    /// The path of the sprite of `species` in `game`, shiny or not.
    pub fn sprite_path(&self, game: &Game, species: u32, shiny: bool) -> (r: String)
        requires
            sprite_dir(*game) is Some,
        ensures
            r@ == sprite_path_text(sprite_dir(*game)->0, species, shiny),
    {
        proof {
            reveal_strlit("frlg");
            reveal_strlit("dp");
            reveal_strlit("rs");
            reveal_strlit("hgss");
            reveal_strlit("bw");
            reveal_strlit("usum");
        }
        let dir = match game {
            Game::FireRedLeafGreen => "frlg",
            Game::DiamondPearl => "dp",
            Game::RubySapphire => "rs",
            Game::HeartGoldSoulSilver => "hgss",
            Game::Black2White2 => "bw",
            Game::BlackWhite => "bw",
            _ => "usum",
        };
        let mut s = String::from_str("../reference/images/");
        s.append(dir);
        s.append("/");
        let num = u64_to_padded_string(species as u64, 3);
        s.append(num.as_str());
        s.append(if shiny { "_shiny.png" } else { ".png" });
        s
    }
}

} // verus!
