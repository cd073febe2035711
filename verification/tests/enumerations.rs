//! Closed enumerations: each code gives its value, and nothing else gives any.

use firds::categories::{
    DebtSeniority, DeliveryType, FinalPriceType, FxType, IndexCode, OptionExerciseStyle, OptionType,
    StrikePriceType, TermUnit, TransactionType,
};
use firds::coded::Coded;
use firds::error::XmlError;
use firds::model::IndexName;
use firds::parse_utils::coded_from_text;

/// Every value is read back from its own code, and the codes are as listed.
fn check_table<T: Coded + PartialEq + std::fmt::Debug + Copy>(table: Vec<(&str, T)>) {
    for (code, value) in table {
        assert_eq!(value.code(), code);
        assert_eq!(T::from_code(code), Some(value));
        assert_eq!(coded_from_text::<T>(code), Ok(value));
        let lower = code.to_lowercase();
        assert_eq!(T::from_code(&lower), None);
        let longer = format!("{code} ");
        assert_eq!(coded_from_text::<T>(&longer), Err(XmlError::EnumParse(longer.clone())));
    }
}

#[test]
fn term_units() {
    check_table(vec![
        ("DAYS", TermUnit::Days),
        ("WEEK", TermUnit::Week),
        ("MNTH", TermUnit::Month),
        ("YEAR", TermUnit::Year),
    ]);
}

#[test]
fn index_codes() {
    check_table(vec![
        ("EONA", IndexCode::Eonia),
        ("EONS", IndexCode::EoniaSwap),
        ("EURO", IndexCode::Euribor),
        ("EUCH", IndexCode::EuroSwiss),
        ("GCFR", IndexCode::GcfRepo),
        ("ISDA", IndexCode::Isdafix),
        ("LIBI", IndexCode::Libid),
        ("LIBO", IndexCode::Libor),
        ("MAAA", IndexCode::MuniAaa),
        ("PFAN", IndexCode::Pfandbriefe),
        ("TIBO", IndexCode::Tibor),
        ("STBO", IndexCode::Stibor),
        ("BBSW", IndexCode::Bbsw),
        ("JIBA", IndexCode::Jibar),
        ("BUBO", IndexCode::Bubor),
        ("CDOR", IndexCode::Cdor),
        ("CIBO", IndexCode::Cibor),
        ("MOSP", IndexCode::Mosprim),
        ("NIBO", IndexCode::Nibor),
        ("PRBO", IndexCode::Pribor),
        ("TLBO", IndexCode::Telbor),
        ("WIBO", IndexCode::Wibor),
        ("TREA", IndexCode::Treasury),
        ("SWAP", IndexCode::Swap),
        ("FUSW", IndexCode::FutureSwap),
    ]);
}

#[test]
fn debt_seniorities() {
    check_table(vec![
        ("SNDB", DebtSeniority::Senior),
        ("MZZD", DebtSeniority::Mezzanine),
        ("SBOD", DebtSeniority::Subordinated),
        ("JUND", DebtSeniority::Junior),
    ]);
}

#[test]
fn option_types_and_styles() {
    check_table(vec![
        ("PUTO", OptionType::Put),
        ("CALL", OptionType::Call),
        ("OTHR", OptionType::Other),
    ]);
    check_table(vec![
        ("EURO", OptionExerciseStyle::European),
        ("AMER", OptionExerciseStyle::American),
        ("ASIA", OptionExerciseStyle::Asian),
        ("BERM", OptionExerciseStyle::Bermudan),
        ("OTHR", OptionExerciseStyle::Other),
    ]);
}

#[test]
fn delivery_and_transaction_types() {
    check_table(vec![
        ("PHYS", DeliveryType::Physical),
        ("CASH", DeliveryType::Cash),
        ("OPTL", DeliveryType::Optional),
    ]);
    check_table(vec![
        ("FUTR", TransactionType::Futures),
        ("OPTN", TransactionType::Options),
        ("TAPO", TransactionType::Tapos),
        ("SWAP", TransactionType::Swaps),
        ("MINI", TransactionType::Minis),
        ("OTCT", TransactionType::OverTheCounter),
        ("ORIT", TransactionType::Outright),
        ("CRCK", TransactionType::Crack),
        ("DIFF", TransactionType::Differential),
        ("OTHR", TransactionType::Other),
    ]);
}

#[test]
fn price_and_fx_types() {
    check_table(vec![
        ("ARGM", FinalPriceType::ArgusMcCloskey),
        ("BLTC", FinalPriceType::Baltic),
        ("EXOF", FinalPriceType::Exchange),
        ("GBCL", FinalPriceType::GlobalCoal),
        ("IHSM", FinalPriceType::IHSMarkit),
        ("PLAT", FinalPriceType::Platts),
        ("OTHR", FinalPriceType::Other),
    ]);
    check_table(vec![
        ("FXCR", FxType::CrossRates),
        ("FXEM", FxType::EmergingMarkets),
        ("FXMJ", FxType::Majors),
    ]);
    check_table(vec![
        ("MONETARY_VALUE", StrikePriceType::MonetaryValue),
        ("PERCENTAGE", StrikePriceType::Percentage),
        ("YIELD", StrikePriceType::Yield),
        ("BASIS_POINTS", StrikePriceType::BasisPoints),
        ("NO_PRICE", StrikePriceType::NoPrice),
    ]);
}

#[test]
fn unknown_code_is_an_error_that_holds_it() {
    assert_eq!(coded_from_text::<TermUnit>(""), Err(XmlError::EnumParse(String::new())));
    assert_eq!(
        coded_from_text::<TermUnit>("HOUR"),
        Err(XmlError::EnumParse("HOUR".to_string()))
    );
    assert_eq!(
        coded_from_text::<OptionType>("PUT"),
        Err(XmlError::EnumParse("PUT".to_string()))
    );
    assert_eq!(
        coded_from_text::<FxType>("FXMJ\u{e9}"),
        Err(XmlError::EnumParse("FXMJ\u{e9}".to_string()))
    );
    assert_eq!(TransactionType::from_code("EURO"), None);
}

#[test]
fn index_name_is_a_code_or_free_text() {
    assert_eq!(IndexName::from_str("EURO"), Ok(IndexName::Code(IndexCode::Euribor)));
    assert_eq!(
        IndexName::from_str("Euribor 3M"),
        Ok(IndexName::Text("Euribor 3M".to_string()))
    );
    assert_eq!(IndexName::from_str(""), Ok(IndexName::Text(String::new())));
    assert_eq!(IndexName::Code(IndexCode::Libor).to_text(), "LIBO");
    assert_eq!(IndexName::Text("SONIA".to_string()).to_text(), "SONIA");
}
