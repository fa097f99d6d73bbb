use gv100ad::error::ParseKeyError;
use gv100ad::model::datum::Datum;
use gv100ad::model::gemeinde::{GemeindeSchluessel, GemeindeTextkennzeichen, RegionalSchluessel};
use gv100ad::model::gemeindeverband::{GemeindeverbandSchluessel, GemeindeverbandTextkennzeichen};
use gv100ad::model::kreis::{KreisSchluessel, KreisTextkennzeichen};
use gv100ad::model::land::LandSchluessel;
use gv100ad::model::regierungsbezirk::RegierungsbezirkSchluessel;
use gv100ad::model::region::RegionSchluessel;

#[test]
fn keys_render_back_to_their_string() {
    assert_eq!("10".parse::<LandSchluessel>().unwrap().to_string(), "10");
    assert_eq!("01".parse::<LandSchluessel>().unwrap().to_string(), "01");
    assert_eq!("083".parse::<RegierungsbezirkSchluessel>().unwrap().to_string(), "083");
    assert_eq!("0811".parse::<RegionSchluessel>().unwrap().to_string(), "0811");
    assert_eq!("10041".parse::<KreisSchluessel>().unwrap().to_string(), "10041");
    assert_eq!("100410100".parse::<GemeindeverbandSchluessel>().unwrap().to_string(), "100410100");
    assert_eq!("100420111111".parse::<GemeindeSchluessel>().unwrap().to_string(), "100420111111");
    assert_eq!("00000000".parse::<RegionalSchluessel>().unwrap().to_string(), "00000000");
}

#[test]
fn keys_are_parsed_component_by_component() {
    let k = "100420111111".parse::<GemeindeSchluessel>().unwrap();
    assert_eq!(k.gemeinde, 111);
    assert_eq!(k.gemeindeverband.gemeindeverband, 111);
    assert_eq!(k.gemeindeverband.kreis.kreis, 42);
    assert_eq!(k.gemeindeverband.kreis.regierungsbezirk.regierungsbezirk, 0);
    assert_eq!(k.gemeindeverband.kreis.regierungsbezirk.land, LandSchluessel::new(10));
    let r: RegionalSchluessel = k.into();
    assert_eq!(r.to_string(), "10042111");
    assert_eq!(r.to_gemeinde_schluessel(111), k);
    assert_eq!(GemeindeSchluessel::from_regional_schluessel(r, 111), k);
    let land: LandSchluessel = k.into();
    assert_eq!(land, LandSchluessel::new(10));
}

#[test]
fn wide_components_render_in_full() {
    assert_eq!(KreisSchluessel::new_land(LandSchluessel::new(10), 100).to_string(), "100100");
    assert_eq!(LandSchluessel::new(7).to_string(), "07");
}

#[test]
fn wrong_length_reports_expected_and_actual() {
    match "100".parse::<LandSchluessel>() {
        Err(ParseKeyError::InvalidLength { expected, got, s }) => {
            assert_eq!(expected, 2);
            assert_eq!(got, 3);
            assert_eq!(s, "100");
        }
        _ => panic!("expected a length error"),
    }
    match "1004201111".parse::<GemeindeSchluessel>() {
        Err(ParseKeyError::InvalidLength { expected, got, .. }) => {
            assert_eq!(expected, 12);
            assert_eq!(got, 10);
        }
        _ => panic!("expected a length error"),
    }
    match "".parse::<KreisSchluessel>() {
        Err(ParseKeyError::InvalidLength { expected, got, .. }) => {
            assert_eq!(expected, 5);
            assert_eq!(got, 0);
        }
        _ => panic!("expected a length error"),
    }
}

#[test]
fn non_digits_are_refused() {
    match "1a".parse::<LandSchluessel>() {
        Err(ParseKeyError::NonNumeric(s)) => assert_eq!(s, "1a"),
        _ => panic!("expected a non-numeric error"),
    }
    assert!("+1".parse::<LandSchluessel>().is_err());
    assert!("10 41".parse::<KreisSchluessel>().is_err());
}

#[test]
fn key_errors_are_built_from_the_string() {
    match ParseKeyError::invalid_length("abc", 2) {
        ParseKeyError::InvalidLength { expected, got, s } => {
            assert_eq!((expected, got, s.as_str()), (2, 3, "abc"));
        }
        _ => panic!("expected a length error"),
    }
    match ParseKeyError::non_numeric("x") {
        ParseKeyError::NonNumeric(s) => assert_eq!(s, "x"),
        _ => panic!("expected a non-numeric error"),
    }
}

#[test]
fn category_codes_map_to_their_kinds() {
    assert_eq!(KreisTextkennzeichen::try_from(41).unwrap(), KreisTextkennzeichen::KreisfreieStadt);
    assert_eq!(KreisTextkennzeichen::from_code(45).unwrap(), KreisTextkennzeichen::Regionalverband);
    assert!(KreisTextkennzeichen::from_code(50).is_err());
    assert_eq!(GemeindeverbandTextkennzeichen::from_code(58).unwrap(), GemeindeverbandTextkennzeichen::ErfuellendeGemeinde);
    assert!(GemeindeverbandTextkennzeichen::from_code(41).is_err());
    assert_eq!(GemeindeTextkennzeichen::from_code(67).unwrap(), GemeindeTextkennzeichen::GrosseKreisstadt);
    assert!(GemeindeTextkennzeichen::from_code(59).is_err());
}

#[test]
fn calendar_dates_follow_the_gregorian_rules() {
    assert!(Datum::from_ymd_opt(2021, 2, 29).is_none());
    assert!(Datum::from_ymd_opt(2020, 2, 29).is_some());
    assert!(Datum::from_ymd_opt(1900, 2, 29).is_none());
    assert!(Datum::from_ymd_opt(2021, 4, 31).is_none());
    assert!(Datum::from_ymd_opt(2021, 13, 1).is_none());
    assert!(Datum::from_ymd_opt(2021, 1, 0).is_none());
    let d = Datum::from_ymd_opt(2021, 4, 30).unwrap();
    assert_eq!((d.year, d.month, d.day), (2021, 4, 30));
}
