use lib::parse::stdp::NonZeroU32;
use lib::parse::types::{
    AUTHDATA_SIZE, Announcements, AssetDsc, AuthData, Backet, Status, UserBacket, UserBackets,
    UserCash, just_parse_anouncements, just_parse_asset_dsc, just_parse_backet, just_user_backet,
    just_user_backets, just_user_cash,
};
use lib::parse::{Parsable, Parser};

fn nz(n: u32) -> NonZeroU32 {
    NonZeroU32::new(n).unwrap()
}

#[test]
fn asset_dsc_either_order() {
    let expected = AssetDsc { id: "gold".to_string(), dsc: "shiny".to_string() };
    assert_eq!(
        just_parse_asset_dsc("AssetDsc { \"id\": \"gold\", \"dsc\": \"shiny\", } rest"),
        Ok(("rest", expected.clone()))
    );
    assert_eq!(
        just_parse_asset_dsc("AssetDsc{\"dsc\":\"shiny\",\"id\":\"gold\",}"),
        Ok(("", expected))
    );
    assert_eq!(just_parse_asset_dsc("AssetDsc{\"id\":\"gold\",}"), Err(()));
}

#[test]
fn backet_parses() {
    let expected = Backet { asset_id: "gold".to_string(), count: nz(5) };
    assert_eq!(
        just_parse_backet("Backet{\"asset_id\":\"gold\",\"count\":5,}"),
        Ok(("", expected.clone()))
    );
    assert_eq!(
        just_parse_backet(" Backet {\"count\": 0x5, \"asset_id\": \"gold\", }x"),
        Ok(("x", expected))
    );
    assert_eq!(just_parse_backet("Backet{\"asset_id\":\"gold\",\"count\":0,}"), Err(()));
}

#[test]
fn user_cash_parses() {
    assert_eq!(
        just_user_cash("UserCash{\"user_id\":\"bob\",\"count\":100,}"),
        Ok(("", UserCash { user_id: "bob".to_string(), count: nz(100) }))
    );
    assert_eq!(just_user_cash("UserCash{\"user_id\":\"bob\"}"), Err(()));
}

#[test]
fn user_backet_parses() {
    let input = "UserBacket{\"backet\":Backet{\"asset_id\":\"a\",\"count\":2,},\"user_id\":\"u\",}";
    assert_eq!(
        just_user_backet(input),
        Ok((
            "",
            UserBacket {
                user_id: "u".to_string(),
                backet: Backet { asset_id: "a".to_string(), count: nz(2) },
            }
        ))
    );
}

#[test]
fn user_backets_parses() {
    let input = "UserBackets{\"user_id\":\"u\",\"backets\":[Backet{\"asset_id\":\"a\",\"count\":1,},Backet{\"asset_id\":\"b\",\"count\":2,},],}";
    let expected = UserBackets {
        user_id: "u".to_string(),
        backets: vec![
            Backet { asset_id: "a".to_string(), count: nz(1) },
            Backet { asset_id: "b".to_string(), count: nz(2) },
        ],
    };
    assert_eq!(just_user_backets(input), Ok(("", expected)));
}

#[test]
fn announcements_parse() {
    let input = "[UserBackets{\"user_id\":\"u\",\"backets\":[],},]";
    assert_eq!(
        just_parse_anouncements(input),
        Ok((
            "",
            Announcements(vec![UserBackets { user_id: "u".to_string(), backets: Vec::new() }])
        ))
    );
    assert_eq!(just_parse_anouncements("[]"), Ok(("", Announcements(Vec::new()))));
    assert_eq!(just_parse_anouncements("UserBackets{}"), Err(()));
}

#[test]
fn status_parses() {
    match Status::parser().parse("Ok rest") {
        Ok((" rest", Status::Okay)) => {},
        _ => panic!("expected Ok"),
    }
    match Status::parser().parse("Err(\"bad\")") {
        Ok(("", Status::Error(msg))) => assert_eq!(msg, "bad"),
        _ => panic!("expected Err"),
    }
    assert!(Status::parser().parse("Fine").is_err());
}

#[test]
fn auth_data_reads_hex_bytes() {
    let mut text = String::new();
    for i in 0..AUTHDATA_SIZE {
        text.push_str(&format!("{:02x}", i % 256));
    }
    text.push_str(" tail");
    let (rest, auth) = AuthData::parser().parse(&text).unwrap();
    assert_eq!(rest, " tail");
    for i in 0..AUTHDATA_SIZE {
        assert_eq!(auth.0[i] as usize, i % 256);
    }
    assert!(AuthData::parser().parse(&text[..2 * AUTHDATA_SIZE - 1]).is_err());
}
