use gv100ad::model::datensatz::Datensatz;
use gv100ad::model::datum::Datum;
use gv100ad::model::gemeinde::{GemeindeDaten, GemeindeSchluessel, RegionalSchluessel};
use gv100ad::model::gemeindeverband::GemeindeverbandDaten;
use gv100ad::model::kreis::{KreisDaten, KreisSchluessel, KreisTextkennzeichen};
use gv100ad::model::land::{LandDaten, LandSchluessel};
use gv100ad::model::regierungsbezirk::{RegierungsbezirkDaten, RegierungsbezirkSchluessel};
use gv100ad::{Database, Parser};

fn testset_lines() -> Vec<String> {
    vec![
        "102021043010          Saarland                                          Saarbrücken, Landeshauptstadt                                                                                                                       ",
        "402021043010041       Regionalverband Saarbrücken                       Saarbrücken, Landeshauptstadt                     45                                                                                                ",
        "502021043010041   0100Saarbrücken, Landeshauptstadt                                                                       50                                                                                                ",
        "502021043010041   0511Friedrichsthal, Stadt                                                                               50                                                                                                ",
        "6020210430100411000100Saarbrücken, Landeshauptstadt                                                                       63    000000167520000018037400000089528    66111*****  1040110955501296                           ",
        "6020210430100415110511Friedrichsthal, Stadt                                                                               63    000000008990000000998700000004907    66299       1070110955513299                           ",
        "402021043010042       Merzig-Wadern                                     Merzig, Kreisstadt                                44                                                                                                ",
        "502021043010042   0111Beckingen                                                                                           50                                                                                                ",
        "502021043010042   0112Losheim am See                                                                                      50                                                                                                ",
        "6020210430100421110111Beckingen                                                                                           64    000000051850000001488900000007315    66701       1020110455523297                           ",
        "6020210430100421120112Losheim am See                                                                                      64    000000096950000001603800000007974    66679       1020110455525297                           ",
        "102021043011          Berlin                                            Berlin                                                                                                                                              ",
    ]
    .into_iter()
    .map(|l| l.to_string())
    .collect()
}

fn load_testset() -> Database {
    Database::from_parser(Parser::new(testset_lines())).unwrap()
}

#[test]
fn get_land_from_landschluessel() {
    let db = load_testset();
    let land: &LandDaten = db.get(LandSchluessel::new(10)).unwrap();
    assert_eq!(land.name, "Saarland");
}

#[test]
fn get_land_from_kreisschluessel() {
    let db = load_testset();
    let land: &LandDaten = db
        .get(KreisSchluessel::new_land(LandSchluessel::new(10), 100))
        .unwrap();
    assert_eq!(land.name, "Saarland");
}

#[test]
fn get_land_from_gemeindeschluessel() {
    let db = load_testset();
    let land: &LandDaten = db
        .get("100420111111".parse::<GemeindeSchluessel>().unwrap())
        .unwrap();
    assert_eq!(land.name, "Saarland");
}

#[test]
fn get_gemeinde() {
    let db = load_testset();
    let gemeinde: &GemeindeDaten = db
        .get("100420111111".parse::<GemeindeSchluessel>().unwrap())
        .unwrap();
    assert_eq!(gemeinde.name, "Beckingen");
}

#[test]
fn get_gemeinde_from_regional_schluessel() {
    let db = load_testset();
    let gemeinde: &GemeindeDaten = db
        .get("10042111".parse::<RegionalSchluessel>().unwrap())
        .unwrap();
    assert_eq!(gemeinde.name, "Beckingen");
}

#[test]
fn iter_all_laender() {
    let db = load_testset();
    let laender = db.all::<LandDaten>();

    assert_eq!(laender.len(), 2);
    assert_eq!(laender[0].name, "Saarland");
    assert_eq!(laender[1].name, "Berlin");
}

#[test]
fn iter_all_kreise() {
    let db = load_testset();
    let kreise = db.all::<KreisDaten>();

    assert_eq!(kreise.len(), 2);
    assert_eq!(kreise[0].name, "Regionalverband Saarbrücken");
    assert_eq!(kreise[1].name, "Merzig-Wadern");
}

#[test]
fn iter_all_gemeinden() {
    let db = load_testset();
    let gemeinden = db.all::<GemeindeDaten>();

    assert_eq!(gemeinden.len(), 4);
    assert_eq!(gemeinden[0].name, "Saarbrücken, Landeshauptstadt");
    assert_eq!(gemeinden[1].name, "Friedrichsthal, Stadt");
    assert_eq!(gemeinden[2].name, "Beckingen");
    assert_eq!(gemeinden[3].name, "Losheim am See");
}

#[test]
fn iter_gemeinden_in_kreis() {
    let db = load_testset();
    let gemeinden =
        db.children::<_, GemeindeDaten>(KreisSchluessel::new_land(LandSchluessel::new(10), 41));

    assert_eq!(gemeinden.len(), 2);
    assert_eq!(gemeinden[0].name, "Saarbrücken, Landeshauptstadt");
    assert_eq!(gemeinden[1].name, "Friedrichsthal, Stadt");
}

#[test]
fn districts_of_saarland_and_their_municipalities() {
    let db = load_testset();
    let land = LandSchluessel::new(10);
    let kreise = db.children::<_, KreisDaten>(land);
    assert_eq!(kreise.len(), 2);
    assert_eq!(kreise[0].name, "Regionalverband Saarbrücken");
    assert_eq!(kreise[0].textkennzeichen, KreisTextkennzeichen::Regionalverband);
    let gemeinden = db.children::<_, GemeindeDaten>(kreise[0].schluessel);
    assert_eq!(gemeinden.len(), 2);
    assert_eq!(gemeinden[0].schluessel.gemeinde, 100);
    assert_eq!(gemeinden[1].schluessel.gemeinde, 511);
    assert_eq!(db.children::<_, GemeindeDaten>(land).len(), 4);
    assert_eq!(db.children::<_, GemeindeverbandDaten>(kreise[1].schluessel).len(), 2);
    assert_eq!(db.children::<_, KreisDaten>(LandSchluessel::new(11)).len(), 0);
}

#[test]
fn one_district_in_a_small_state() {
    let lines: Vec<String> = testset_lines().into_iter().take(6).collect();
    let db = Database::from_parser(Parser::new(lines)).unwrap();
    let kreise = db.children::<_, KreisDaten>(LandSchluessel::new(10));
    assert_eq!(kreise.len(), 1);
    assert_eq!(kreise[0].name, "Regionalverband Saarbrücken");
    let gemeinden = db.children::<_, GemeindeDaten>(kreise[0].schluessel);
    assert_eq!(gemeinden.len(), 2);
    assert_eq!(gemeinden[0].name, "Saarbrücken, Landeshauptstadt");
    assert_eq!(gemeinden[1].name, "Friedrichsthal, Stadt");
}

#[test]
fn state_by_municipality_key_is_state_by_own_key() {
    let db = load_testset();
    let by_land: &LandDaten = db.get(LandSchluessel::new(10)).unwrap();
    for gemeinde in db.all::<GemeindeDaten>() {
        let by_gemeinde: &LandDaten = db.get(gemeinde.schluessel).unwrap();
        assert_eq!(by_gemeinde.name, by_land.name);
        assert_eq!(by_gemeinde.schluessel, by_land.schluessel);
    }
    let rb: &RegierungsbezirkSchluessel = &KreisSchluessel::new_land(LandSchluessel::new(10), 41).regierungsbezirk;
    let by_rb: &LandDaten = db.get(*rb).unwrap();
    assert_eq!(by_rb.name, "Saarland");
    let missing: Option<&RegierungsbezirkDaten> = db.get(*rb);
    assert!(missing.is_none());
}

#[test]
fn later_record_replaces_earlier_one_with_same_key() {
    let mut db = Database::new();
    let first = Parser::new(vec![testset_lines()[0].clone()]).parse_line().unwrap().unwrap();
    let renamed = testset_lines()[0].replace("Saarland", "Saarstaat");
    let second = Parser::new(vec![renamed]).parse_line().unwrap().unwrap();
    db.insert(first);
    db.insert(second);
    let laender = db.all::<LandDaten>();
    assert_eq!(laender.len(), 1);
    assert_eq!(laender[0].name, "Saarstaat");
    let land: &LandDaten = db.get(LandSchluessel::new(10)).unwrap();
    assert_eq!(land.name, "Saarstaat");
}

#[test]
fn regional_key_resolves_only_after_the_municipality_is_stored() {
    let db = load_testset();
    let rs = "10042111".parse::<RegionalSchluessel>().unwrap();
    let full = db.regional_to_gemeinde_schluessel(rs).unwrap();
    assert_eq!(full.to_string(), "100420111111");
    let unknown = "10042999".parse::<RegionalSchluessel>().unwrap();
    assert!(db.regional_to_gemeinde_schluessel(unknown).is_none());
    let none: Option<&GemeindeDaten> = db.get(unknown);
    assert!(none.is_none());
}

#[test]
fn loading_stops_at_the_first_bad_line() {
    let mut lines = testset_lines();
    lines.insert(3, "99".to_string() + &lines[3][2..]);
    match Database::from_parser(Parser::new(lines)) {
        Err(gv100ad::error::Error::InvalidType(99)) => {}
        _ => panic!("expected an unknown record type"),
    }
}

#[test]
fn empty_input_gives_empty_database() {
    let db = Database::from_parser(Parser::new(Vec::new())).unwrap();
    assert_eq!(db.all::<LandDaten>().len(), 0);
    assert_eq!(db.all::<GemeindeDaten>().len(), 0);
}

#[test]
fn record_accessors_give_date_and_name() {
    let mut parser = Parser::new(testset_lines());
    let record = parser.parse_line().unwrap().unwrap();
    assert_eq!(record.name(), "Saarland");
    assert_eq!(*record.gebietsstand(), Datum::from_ymd_opt(2021, 4, 30).unwrap());
    match record {
        Datensatz::Land(land) => assert_eq!(land.sitz_regierung, "Saarbrücken, Landeshauptstadt"),
        _ => panic!("Incorrect record type"),
    }
}

fn padded(s: &str, width: usize) -> String {
    let mut out = s.to_string();
    while out.chars().count() < width {
        out.push(' ');
    }
    out
}

#[test]
fn regions_sit_below_their_government_district() {
    let rb_line = format!("2020210430081         {}{}", padded("Stuttgart", 50), padded("Stuttgart", 50));
    let region_line = format!("30202104300811{}{}", padded("Stuttgart", 50), padded("Stuttgart", 50));
    let other_line = format!("30202104300821{}{}", padded("Heilbronn-Franken", 50), padded("Heilbronn", 50));
    let db = Database::from_parser(Parser::new(vec![region_line, other_line, rb_line])).unwrap();

    let rb = "081".parse::<RegierungsbezirkSchluessel>().unwrap();
    let regionen = db.children::<_, gv100ad::model::region::RegionDaten>(rb);
    assert_eq!(regionen.len(), 1);
    assert_eq!(regionen[0].name, "Stuttgart");
    assert_eq!(regionen[0].schluessel.to_string(), "0811");

    let all_in_land = db.children::<_, gv100ad::model::region::RegionDaten>(LandSchluessel::new(8));
    assert_eq!(all_in_land.len(), 2);
    assert_eq!(all_in_land[1].name, "Heilbronn-Franken");

    let region_key = "0811".parse::<gv100ad::model::region::RegionSchluessel>().unwrap();
    let by_region: &RegierungsbezirkDaten = db.get(region_key).unwrap();
    assert_eq!(by_region.sitz_verwaltung, "Stuttgart");
    let no_land: Option<&LandDaten> = db.get(region_key);
    assert!(no_land.is_none());
}
