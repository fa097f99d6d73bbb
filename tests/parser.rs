use gv100ad::error::Error;
use gv100ad::model::datensatz::Datensatz;
use gv100ad::model::datum::Datum;
use gv100ad::model::gemeinde::{Bundestagswahlkreise, GemeindeSchluessel, GemeindeTextkennzeichen};
use gv100ad::model::gemeindeverband::{GemeindeverbandSchluessel, GemeindeverbandTextkennzeichen};
use gv100ad::model::kreis::KreisSchluessel;
use gv100ad::model::land::LandSchluessel;
use gv100ad::parser::{parse_date, parse_record, FieldReader};
use gv100ad::Parser;

fn parse_single_line(line: &str) -> Datensatz {
    let mut parser = Parser::new(vec![line.to_string()]);
    let record = parser.parse_line().unwrap().unwrap();
    assert!(parser.parse_line().unwrap().is_none());
    record
}

#[test]
fn it_parses_landdaten() {
    let l = "102021043010          Saarland                                          Saarbrücken, Landeshauptstadt                                                                                                                       ";
    let record = parse_single_line(l);

    match record {
        Datensatz::Land(land) => {
            assert_eq!(land.gebietsstand, Datum::from_ymd_opt(2021, 04, 30).unwrap());
            assert_eq!(land.schluessel, LandSchluessel::new(10));
            assert_eq!(land.name, "Saarland");
            assert_eq!(land.sitz_regierung, "Saarbrücken, Landeshauptstadt");
        }
        _ => panic!("Incorrect record type"),
    }
}

#[test]
fn it_parses_kreisdaten() {
    let l = "402021043010041       Regionalverband Saarbrücken                       Saarbrücken, Landeshauptstadt                     45                                                                                                ";
    let record = parse_single_line(l);

    match record {
        Datensatz::Kreis(kreis) => {
            assert_eq!(kreis.gebietsstand, Datum::from_ymd_opt(2021, 04, 30).unwrap());
            assert_eq!(
                kreis.schluessel,
                KreisSchluessel::new_land(LandSchluessel::new(10), 41)
            );
            assert_eq!(kreis.name, "Regionalverband Saarbrücken");
            assert_eq!(kreis.sitz_verwaltung, "Saarbrücken, Landeshauptstadt");
        }
        _ => panic!("Incorrect record type"),
    }
}

#[test]
fn it_parses_gemeindeverbanddaten() {
    let l = "502021043010041   0100Saarbrücken, Landeshauptstadt                                                                       50                                                                                                ";
    let record = parse_single_line(l);

    match record {
        Datensatz::Gemeindeverband(gemeindeverband) => {
            assert_eq!(
                gemeindeverband.gebietsstand,
                Datum::from_ymd_opt(2021, 04, 30).unwrap()
            );
            assert_eq!(
                gemeindeverband.schluessel.kreis,
                KreisSchluessel::new_land(LandSchluessel::new(10), 41)
            );
            assert_eq!(gemeindeverband.schluessel.gemeindeverband, 100);
            assert_eq!(gemeindeverband.name, "Saarbrücken, Landeshauptstadt");
            assert_eq!(gemeindeverband.sitz_verwaltung, None);
            assert_eq!(
                gemeindeverband.textkennzeichen,
                GemeindeverbandTextkennzeichen::VerbandsfreieGemeinde
            );
        }
        _ => panic!("Incorrect record type"),
    }
}

#[test]
fn it_parses_gemeindedaten() {
    let l = "6020210430100411000100Saarbrücken, Landeshauptstadt                                                                       63    000000167520000018037400000089528    66111*****  1040110955501296                           ";
    let record = parse_single_line(l);

    match record {
        Datensatz::Gemeinde(gemeinde) => {
            assert_eq!(gemeinde.gebietsstand, Datum::from_ymd_opt(2021, 04, 30).unwrap());
            assert_eq!(
                gemeinde.schluessel,
                GemeindeSchluessel::new(
                    GemeindeverbandSchluessel::new(
                        KreisSchluessel::new_land(LandSchluessel::new(10), 41),
                        100
                    ),
                    100
                )
            );
            assert_eq!(gemeinde.schluessel.gemeindeverband.gemeindeverband, 100);
            assert_eq!(gemeinde.name, "Saarbrücken, Landeshauptstadt");
            assert_eq!(gemeinde.textkennzeichen, GemeindeTextkennzeichen::Stadt);
            assert_eq!(gemeinde.area, 16752);
            assert_eq!(gemeinde.population_total, 180374);
            assert_eq!(gemeinde.population_male, 89528);
            assert_eq!(gemeinde.plz, "66111");
            assert_eq!(gemeinde.plz_unambiguous, false);
            assert_eq!(gemeinde.finanzamtbezirk, Some(1040));
            let gerichtbarkeit = gemeinde.gerichtbarkeit.unwrap();
            assert_eq!(gerichtbarkeit.oberlandesgericht, "1");
            assert_eq!(gerichtbarkeit.landgericht, "1");
            assert_eq!(gerichtbarkeit.amtsgericht, "09");
            assert_eq!(gemeinde.arbeitsargenturbezirk, Some(55501));
            match gemeinde.bundestagswahlkreise {
                Some(Bundestagswahlkreise::Single(n)) => assert_eq!(n, 296),
                _ => panic!("Expected there to be a single Bundestagswahlkreis"),
            }
        }
        _ => panic!("Incorrect record type"),
    }
}

#[test]
fn unknown_record_type_is_reported_with_its_code() {
    let l = "99".to_string() + &"102021043010          Saarland                                          Saarbrücken, Landeshauptstadt                                                                                                                       "[2..];
    match parse_record(&l) {
        Err(Error::InvalidType(99)) => {}
        _ => panic!("expected an unknown record type"),
    }
}

#[test]
fn non_numeric_type_code_is_a_number_error() {
    match parse_record("x0") {
        Err(Error::ParseInt(s)) => assert_eq!(s, "x0"),
        _ => panic!("expected a number error"),
    }
    match parse_record("") {
        Err(Error::ParseInt(s)) => assert_eq!(s, ""),
        _ => panic!("expected a number error"),
    }
}

#[test]
fn malformed_date_is_a_number_error() {
    let l = "10202104x010          Saarland";
    match parse_record(l) {
        Err(Error::ParseInt(s)) => assert_eq!(s, "x0"),
        _ => panic!("expected a number error"),
    }
}

#[test]
fn impossible_date_is_rejected() {
    let l = "102021023010          Saarland";
    match parse_record(l) {
        Err(Error::InvalidDate(s)) => assert_eq!(s, "20210230"),
        _ => panic!("expected an invalid date"),
    }
    assert!(parse_date("20200229").is_ok());
    assert!(parse_date("21000229").is_err());
    assert_eq!(parse_date("20000229").unwrap(), Datum::from_ymd_opt(2000, 2, 29).unwrap());
}

#[test]
fn malformed_key_in_a_line_is_a_key_error() {
    let l = "10202104301x          Saarland";
    match parse_record(l) {
        Err(Error::ParseKey(gv100ad::error::ParseKeyError::NonNumeric(s))) => assert_eq!(s, "1x"),
        _ => panic!("expected a key error"),
    }
}

#[test]
fn unknown_category_code_is_reported() {
    let l = "402021043010041       Regionalverband Saarbrücken                       Saarbrücken, Landeshauptstadt                     45                                                                                                ".replacen("45", "49", 1);
    match parse_record(&l) {
        Err(Error::InvalidTextkennzeichen(49)) => {}
        _ => panic!("expected an unknown category"),
    }
}

#[test]
fn line_terminators_are_removed() {
    let l = "102021043010          Saarland                                          Saarbrücken, Landeshauptstadt                                                                                                                       ".trim_end().to_string();
    for end in ["\n", "\r\n", "\r", ""] {
        match parse_record(&(l.clone() + end)) {
            Ok(Datensatz::Land(land)) => assert_eq!(land.sitz_regierung, "Saarbrücken, Landeshauptstadt"),
            _ => panic!("Incorrect record type"),
        }
    }
}

#[test]
fn take_past_the_end_returns_what_is_left() {
    let mut fields = FieldReader::new("abcü");
    assert_eq!(fields.next(2), "ab");
    assert_eq!(fields.next(5), "cü");
    assert_eq!(fields.next(3), "");
    let mut fields = FieldReader::new("12  ");
    fields.skip(2);
    assert_eq!(fields.next_opt(2), None);
    let mut fields = FieldReader::new("12  ");
    assert_eq!(fields.parse_next::<u16>(2).unwrap(), 12);
    assert_eq!(fields.parse_next_opt::<u16>(2).unwrap(), None);
}

#[test]
fn fields_count_characters_not_bytes() {
    let mut fields = FieldReader::new("üüx7");
    assert_eq!(fields.next(2), "üü");
    assert_eq!(fields.next(1), "x");
    assert_eq!(fields.parse_next::<u8>(1).unwrap(), 7);
}

#[test]
fn constituency_range_is_read() {
    let v: Bundestagswahlkreise = "296297".parse().unwrap();
    assert_eq!(v, Bundestagswahlkreise::Range(296, 297));
    let v: Bundestagswahlkreise = "296".parse().unwrap();
    assert_eq!(v, Bundestagswahlkreise::Single(296));
    assert!("29x   ".parse::<Bundestagswahlkreise>().is_err());
}

#[test]
fn number_fields_reject_overflow_and_signs() {
    let mut fields = FieldReader::new("256+1");
    assert!(fields.parse_next::<u8>(3).is_err());
    assert!(fields.parse_next::<u8>(2).is_err());
    let mut fields = FieldReader::new("18446744073709551616");
    assert!(fields.parse_next::<u64>(20).is_err());
    let mut fields = FieldReader::new("18446744073709551615");
    assert_eq!(fields.parse_next::<u64>(20).unwrap(), u64::MAX);
}
