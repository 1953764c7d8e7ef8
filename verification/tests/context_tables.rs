use shaoooh::app::states::Game;
use shaoooh::context::encounters::{encounter_rows, EncounterTables, EncountersProvider};
use shaoooh::context::species::SpeciesProvider;
use shaoooh::context::versions::VersionsProvider;
use shaoooh::context::{parse_u32, str_eq, PkContext};

const SPECIES: &str = "species_id,local_language_id,name,genus\n\
1,9,Bulbasaur,Seed\n\
1,1,Fushigidane,Tane\n\
25,9,Pikachu,Mouse\n\
16,9,Pidgey,Tiny Bird\n";

const GROUPS: &str = "id,identifier,generation_id,order\n\
5,ruby-sapphire,3,5\n\
7,firered-leafgreen,3,7\n\
12,colosseum,3,12\n";

const VERSIONS: &str = "id,version_group_id,identifier\n\
7,5,ruby\n\
8,5,sapphire\n\
10,7,firered\n\
11,7,leafgreen\n\
19,12,colosseum\n";

fn rows(lines: &[&[&str]]) -> Vec<Vec<String>> {
    lines
        .iter()
        .map(|l| l.iter().map(|f| f.to_string()).collect())
        .collect()
}

fn tables() -> EncounterTables {
    EncounterTables::from_csv(
        "location_area_id,local_language_id,name\n100,9,Viridian Forest\n100,5,Foret de Jade\n",
        "id,location_id,game_index,identifier\n101,20,1,east\n102,21,2,\n",
        "location_id,local_language_id,name,subtitle\n20,9,Route 1,\n21,9,Route 2,\n",
        "id,version_group_id,encounter_method_id,slot,rarity\n5,7,1,1,20\n6,5,2,1,30\n",
        "id,identifier,order\n1,walk,1\n2,old-rod,10\n",
        "encounter_method_id,local_language_id,name\n1,9,Walking in tall grass or a cave\n",
        "encounter_id,encounter_condition_value_id\n2,5\n",
        "encounter_condition_value_id,local_language_id,name\n5,9,Morning\n",
    )
}

fn sample_encounter_rows() -> Vec<Vec<String>> {
    rows(&[
        &["1", "10", "100", "5", "25", "3", "5"],
        &["2", "11", "100", "5", "25", "3", "5"],
        &["3", "10", "100", "5", "16", "2", "2"],
        &["4", "7", "101", "6", "25", "4", "4"],
        &["5", "8", "102", "6", "25", "6", "7"],
    ])
}

#[test]
fn parse_u32_reads_as_std_does() {
    for s in [
        "42", "+7", "", "+", "-1", "4294967295", "4294967296", "12a", " 1", "007", "0",
        "99999999999999999999",
    ] {
        assert_eq!(parse_u32(s), s.parse::<u32>().ok(), "{}", s);
    }
    assert_eq!(parse_u32("42"), Some(42));
    assert_eq!(parse_u32("+7"), Some(7));
    assert_eq!(parse_u32("4294967296"), None);
}

#[test]
fn str_eq_compares_characters() {
    assert!(str_eq("abc", "abc"));
    assert!(!str_eq("abc", "abd"));
    assert!(!str_eq("abc", "ab"));
    assert!(str_eq("", ""));
}

#[test]
fn species_names_are_the_english_ones() {
    let s = SpeciesProvider::new(SPECIES).unwrap();
    assert_eq!(s.name(1), "Bulbasaur");
    assert_eq!(s.name(25), "Pikachu");
    assert_eq!(s.name(2), "");
}

#[test]
fn species_table_with_a_bad_number_is_refused() {
    assert!(SpeciesProvider::new("a,b,c,d\nx,9,Foo,y\n").is_none());
    assert!(SpeciesProvider::new("a,b,c,d\n").is_some());
}

#[test]
fn versions_of_each_game() {
    let v = VersionsProvider::new(GROUPS, VERSIONS).unwrap();
    assert_eq!(v.get_ids(&Game::RubySapphire), vec![7, 8]);
    assert_eq!(v.get_ids(&Game::FireRedLeafGreen), vec![10, 11]);
    assert!(v.knows_game(&Game::FireRedLeafGreen));
    assert!(!v.knows_game(&Game::Emerald));
    assert_eq!(v.get_name(10), "firered");
    assert!(v.has_name(8));
    assert!(!v.has_name(19));
    let mut all = v.all_ids();
    all.sort();
    assert_eq!(all, vec![7, 8, 10, 11]);
    let mut union = v.get_ids(&Game::RubySapphire);
    union.extend(v.get_ids(&Game::FireRedLeafGreen));
    union.sort();
    assert_eq!(all, union);
    for id in v.all_ids() {
        assert!(!v.get_name(id).is_empty());
    }
}

#[test]
fn versions_table_with_a_bad_number_is_refused() {
    assert!(VersionsProvider::new("a,b,c,d\nx,emerald,3,6\n", VERSIONS).is_none());
    assert!(VersionsProvider::new(GROUPS, "a,b,c\n7,five,ruby\n").is_none());
}

#[test]
fn encounters_in_one_game() {
    let names = SpeciesProvider::new(SPECIES).unwrap();
    let versions = VersionsProvider::new(GROUPS, VERSIONS).unwrap();
    let p = EncountersProvider::new();
    let lines = p
        .get_encounters(
            25,
            Some(Game::FireRedLeafGreen),
            &names,
            &versions,
            &sample_encounter_rows(),
            &tables(),
        )
        .unwrap();
    assert_eq!(
        lines,
        vec![
            "Pikachu can be encountered in firered at Viridian Forest @ lvl. 3-5 by Walking in tall grass or a cave at 20%".to_string(),
            "Pikachu can be encountered in leafgreen at Viridian Forest @ lvl. 3-5 by Walking in tall grass or a cave at 20% (Morning)".to_string(),
        ]
    );
}

#[test]
fn encounter_area_named_from_its_location() {
    let names = SpeciesProvider::new(SPECIES).unwrap();
    let versions = VersionsProvider::new(GROUPS, VERSIONS).unwrap();
    let p = EncountersProvider::new();
    let lines = p
        .get_encounters(
            25,
            Some(Game::RubySapphire),
            &names,
            &versions,
            &sample_encounter_rows(),
            &tables(),
        )
        .unwrap();
    assert_eq!(
        lines,
        vec![
            "Pikachu can be encountered in ruby at Route 1 east @ lvl. 4-4 by old-rod at 30%".to_string(),
            "Pikachu can be encountered in sapphire at Route 2 @ lvl. 6-7 by old-rod at 30%".to_string(),
        ]
    );
}

#[test]
fn encounters_of_an_unknown_game_are_none() {
    let names = SpeciesProvider::new(SPECIES).unwrap();
    let versions = VersionsProvider::new(GROUPS, VERSIONS).unwrap();
    let p = EncountersProvider::new();
    assert!(p
        .get_encounters(25, Some(Game::Emerald), &names, &versions, &sample_encounter_rows(), &tables())
        .is_none());
}

#[test]
fn encounters_in_every_game() {
    let names = SpeciesProvider::new(SPECIES).unwrap();
    let versions = VersionsProvider::new(GROUPS, VERSIONS).unwrap();
    let p = EncountersProvider::new();
    let lines = p
        .get_encounters(16, None, &names, &versions, &sample_encounter_rows(), &tables())
        .unwrap();
    assert_eq!(lines.len(), 1);
    assert!(lines[0].starts_with("Pidgey can be encountered in firered at Viridian Forest @ lvl. 2-2"));
}

#[test]
fn sprite_paths() {
    let ctx = PkContext::new(
        SpeciesProvider::new(SPECIES).unwrap(),
        VersionsProvider::new(GROUPS, VERSIONS).unwrap(),
    );
    assert_eq!(
        ctx.sprite_path(&Game::FireRedLeafGreen, 25, false),
        "../reference/images/frlg/025.png"
    );
    assert_eq!(
        ctx.sprite_path(&Game::UltraSunUltraMoon, 792, true),
        "../reference/images/usum/792_shiny.png"
    );
    assert_eq!(ctx.sprite_path(&Game::BlackWhite, 1, true), "../reference/images/bw/001_shiny.png");
    assert_eq!(ctx.species().name(16), "Pidgey");
    assert_eq!(ctx.versions().get_ids(&Game::RubySapphire), vec![7, 8]);
}

#[test]
fn encounter_rows_read_from_text() {
    let text = "id,version_id,location_area_id,encounter_slot_id,pokemon_id,min_level,max_level\n\
1,10,100,5,25,3,5\n\
2,11,100,5,25,3,5\n\
3,10,100,5,16,2,2\n\
4,7,101,6,25,4,4\n\
5,8,102,6,25,6,7\n";
    let read = encounter_rows(text);
    assert_eq!(read, sample_encounter_rows());
    let names = SpeciesProvider::new(SPECIES).unwrap();
    let versions = VersionsProvider::new(GROUPS, VERSIONS).unwrap();
    let lines = EncountersProvider::new()
        .get_encounters(25, Some(Game::FireRedLeafGreen), &names, &versions, &read, &tables())
        .unwrap();
    assert_eq!(lines.len(), 2);
}
