//! Decoding records from elements.

use firds::categories::{
    DebtSeniority, DeliveryType, FinalPriceType, FxType, IndexCode, OptionExerciseStyle, OptionType,
    StrikePriceType, TermUnit, TransactionType,
};
use firds::element::Element;
use firds::error::{ProductError, XmlError};
use firds::events::{EventQueue, StartTag, XmlEvent};
use firds::from_xml::FromXml;
use firds::iter_xml::{Mode, XmlIterator};
use firds::model::{
    AssetClassSpecificAttributes, CommodityDerivativeAttributes, DebtAttributes,
    DerivativeAttributes, DerivativeUnderlying, FloatingRate, FxDerivativeAttributes, Index,
    IndexName, InterestRate, InterestRateDerivativeAttributes, ModifiedRecord, NewRecord,
    PublicationPeriod, ReferenceData, StrikePrice, TechnicalAttributes, Term, TerminatedRecord,
    TradingVenueAttributes, UnderlyingBasket, UnderlyingSingle,
};
use firds::product::{AgriculturalSubProduct, BaseProduct, EnergySubProduct, OilFurtherSubProduct};
use firds::records::IterRefData;
use firds::scalar::{Date, Decimal, Timestamp};

/// The first element of a document.
fn element(document: &str) -> Element {
    let name: String = document[1..].chars().take_while(|c| c.is_alphanumeric()).collect();
    let mut iterator = XmlIterator::from_bytes(vec![name], document.as_bytes());
    iterator.next().unwrap().unwrap()
}

fn decode<T: FromXml>(document: &str) -> Result<T, XmlError> {
    T::from_xml(&element(document))
}

fn decimal(text: &str) -> Decimal {
    Decimal::parse(text).unwrap()
}

fn text(s: &str) -> Option<String> {
    Some(s.to_string())
}

#[test]
fn absent_element_is_no_record_and_no_error() {
    assert_eq!(Term::from_xml_option(None), Ok(None));
    assert_eq!(StrikePrice::from_xml_option(None), Ok(None));
    assert_eq!(InterestRate::from_xml_option(None), Ok(None));
    assert_eq!(ReferenceData::from_xml_option(None), Ok(None));
    assert_eq!(DebtSeniority::from_xml_option(None), Ok(None));
    assert_eq!(BaseProduct::from_xml_option(None), Ok(None));
}

#[test]
fn element_that_cannot_be_decoded_is_an_error() {
    let bad = element("<Term><Val>x</Val><Unit>DAYS</Unit></Term>");
    assert_eq!(Term::from_xml_option(Some(&bad)), Err(XmlError::IntParse));
    let empty = element("<Term/>");
    assert_eq!(Term::from_xml_option(Some(&empty)), Err(XmlError::ElementNotFound));
    assert_eq!(StrikePrice::from_xml_option(Some(&empty)), Err(XmlError::ElementNotFound));
    assert_eq!(InterestRate::from_xml_option(Some(&empty)), Err(XmlError::ElementNotFound));
    assert_eq!(
        DebtSeniority::from_xml_option(Some(&empty)),
        Err(XmlError::EnumParse(String::new()))
    );
}

#[test]
fn present_element_gives_its_record() {
    let good = element("<Term><Val>3</Val><Unit>MNTH</Unit></Term>");
    assert_eq!(
        Term::from_xml_option(Some(&good)),
        Ok(Some(Term { number: 3, unit: TermUnit::Month }))
    );
}

#[test]
fn term() {
    assert_eq!(
        decode::<Term>("<Term><Unit>YEAR</Unit><Val>-1</Val></Term>"),
        Ok(Term { number: -1, unit: TermUnit::Year })
    );
    assert_eq!(decode::<Term>("<Term><Unit>YEAR</Unit></Term>"), Err(XmlError::ElementNotFound));
    assert_eq!(decode::<Term>("<Term><Val>1</Val></Term>"), Err(XmlError::ElementNotFound));
    assert_eq!(
        decode::<Term>("<Term><Val>1.5</Val><Unit>YEAR</Unit></Term>"),
        Err(XmlError::IntParse)
    );
    assert_eq!(
        decode::<Term>("<Term><Val>1</Val><Unit>DECADE</Unit></Term>"),
        Err(XmlError::EnumParse("DECADE".to_string()))
    );
    assert_eq!(
        decode::<Term>("<Term><Val>x</Val><Unit>DECADE</Unit></Term>"),
        Err(XmlError::IntParse)
    );
}

#[test]
fn strike_price_with_a_price() {
    assert_eq!(
        decode::<StrikePrice>(
            "<StrkPric><Pric><MntryVal><Amt Ccy=\"EUR\">100.5</Amt><Ccy>EUR</Ccy></MntryVal></Pric></StrkPric>"
        ),
        Ok(StrikePrice {
            price_type: StrikePriceType::MonetaryValue,
            price: Some(decimal("100.5")),
            pending: false,
            currency: text("EUR"),
        })
    );
    assert_eq!(
        decode::<StrikePrice>("<StrkPric><Pric><Pctg>12.5</Pctg></Pric></StrkPric>"),
        Ok(StrikePrice {
            price_type: StrikePriceType::Percentage,
            price: Some(decimal("12.5")),
            pending: false,
            currency: None,
        })
    );
    assert_eq!(
        decode::<StrikePrice>("<StrkPric><Pric><Yld>-0.25</Yld></Pric></StrkPric>"),
        Ok(StrikePrice {
            price_type: StrikePriceType::Yield,
            price: Some(decimal("-0.25")),
            pending: false,
            currency: None,
        })
    );
    assert_eq!(
        decode::<StrikePrice>("<StrkPric><Pric><BsisPts>150</BsisPts></Pric></StrkPric>"),
        Ok(StrikePrice {
            price_type: StrikePriceType::BasisPoints,
            price: Some(decimal("150")),
            pending: false,
            currency: None,
        })
    );
}

#[test]
fn strike_price_takes_the_first_kind_of_price_in_a_fixed_order() {
    assert_eq!(
        decode::<StrikePrice>(
            "<StrkPric><Pric><BsisPts>1</BsisPts><Yld>2</Yld><Pctg>3</Pctg><MntryVal><Amt>4</Amt></MntryVal></Pric></StrkPric>"
        )
        .map(|p| (p.price_type, p.price)),
        Ok((StrikePriceType::MonetaryValue, Some(decimal("4"))))
    );
    assert_eq!(
        decode::<StrikePrice>("<StrkPric><Pric><BsisPts>1</BsisPts><Yld>2</Yld></Pric></StrkPric>")
            .map(|p| (p.price_type, p.price)),
        Ok((StrikePriceType::Yield, Some(decimal("2"))))
    );
    assert_eq!(
        decode::<StrikePrice>(
            "<StrkPric><NoPric><Pdg>PNDG</Pdg></NoPric><Pric><Pctg>3</Pctg></Pric></StrkPric>"
        )
        .map(|p| p.price_type),
        Ok(StrikePriceType::Percentage)
    );
}

#[test]
fn strike_price_without_a_price() {
    assert_eq!(
        decode::<StrikePrice>("<StrkPric><NoPric><Pdg>PNDG</Pdg><Ccy>USD</Ccy></NoPric></StrkPric>"),
        Ok(StrikePrice {
            price_type: StrikePriceType::NoPrice,
            price: None,
            pending: true,
            currency: text("USD"),
        })
    );
    assert_eq!(
        decode::<StrikePrice>("<StrkPric><NoPric><Pdg>NOAP</Pdg></NoPric></StrkPric>"),
        Ok(StrikePrice {
            price_type: StrikePriceType::NoPrice,
            price: None,
            pending: false,
            currency: None,
        })
    );
}

#[test]
fn strike_price_faults() {
    assert_eq!(decode::<StrikePrice>("<StrkPric/>"), Err(XmlError::ElementNotFound));
    assert_eq!(decode::<StrikePrice>("<StrkPric><Pric/></StrkPric>"), Err(XmlError::ElementNotFound));
    assert_eq!(
        decode::<StrikePrice>("<StrkPric><Pric><MntryVal><Ccy>EUR</Ccy></MntryVal></Pric></StrkPric>"),
        Err(XmlError::ElementNotFound)
    );
    assert_eq!(
        decode::<StrikePrice>("<StrkPric><NoPric><Ccy>EUR</Ccy></NoPric></StrkPric>"),
        Err(XmlError::ElementNotFound)
    );
    assert_eq!(
        decode::<StrikePrice>("<StrkPric><Pric><Pctg>12,5</Pctg></Pric></StrkPric>"),
        Err(XmlError::FloatParse)
    );
    assert_eq!(
        decode::<StrikePrice>("<StrkPric><Pric><Pctg></Pctg></Pric></StrkPric>"),
        Err(XmlError::FloatParse)
    );
}

#[test]
fn floating_rate() {
    assert_eq!(
        decode::<FloatingRate>(
            "<Fltg><RefRate><Indx>EURO</Indx><Nm>ignored</Nm></RefRate><Term><Unit>MNTH</Unit><Val>6</Val></Term></Fltg>"
        ),
        Ok(FloatingRate {
            name: Some(IndexName::Code(IndexCode::Euribor)),
            term: Some(Term { number: 6, unit: TermUnit::Month }),
        })
    );
    assert_eq!(
        decode::<FloatingRate>("<Fltg><RefRate><Nm>SONIA</Nm></RefRate></Fltg>"),
        Ok(FloatingRate { name: Some(IndexName::Text("SONIA".to_string())), term: None })
    );
    assert_eq!(
        decode::<FloatingRate>("<Fltg><RefRate><Indx>EURI</Indx></RefRate></Fltg>"),
        Ok(FloatingRate { name: Some(IndexName::Text("EURI".to_string())), term: None })
    );
    assert_eq!(
        decode::<FloatingRate>("<Fltg><RefRate><ISIN>X</ISIN></RefRate></Fltg>"),
        Ok(FloatingRate { name: None, term: None })
    );
    assert_eq!(decode::<FloatingRate>("<Fltg><Term/></Fltg>"), Err(XmlError::ElementNotFound));
    assert_eq!(
        decode::<FloatingRate>("<Fltg><RefRate/><Term><Val>1</Val></Term></Fltg>"),
        Err(XmlError::ElementNotFound)
    );
}

#[test]
fn index() {
    assert_eq!(
        decode::<Index>("<Indx><ISIN>DE0008469008</ISIN><Nm><RefRate><Nm>DAX</Nm></RefRate></Nm></Indx>"),
        Ok(Index {
            isin: text("DE0008469008"),
            name: FloatingRate { name: Some(IndexName::Text("DAX".to_string())), term: None },
        })
    );
    assert_eq!(
        decode::<Index>("<Indx><Nm><RefRate><Indx>LIBO</Indx></RefRate></Nm></Indx>"),
        Ok(Index {
            isin: None,
            name: FloatingRate { name: Some(IndexName::Code(IndexCode::Libor)), term: None },
        })
    );
    assert_eq!(decode::<Index>("<Indx><ISIN>X</ISIN></Indx>"), Err(XmlError::ElementNotFound));
}

#[test]
fn trading_venue_attributes() {
    assert_eq!(
        decode::<TradingVenueAttributes>(
            "<TradgVnRltdAttrbts><Id>XETR</Id><IssrReq>true</IssrReq><AdmssnApprvlDtByIssr>2017-11-16T08:30:00Z</AdmssnApprvlDtByIssr><FrstTradDt>2025-02-02T00:00:00+01:00</FrstTradDt></TradgVnRltdAttrbts>"
        ),
        Ok(TradingVenueAttributes {
            trading_venue: "XETR".to_string(),
            requested_admission: true,
            approval_date: Some(Timestamp { seconds: 1510821000, nanos: 0 }),
            request_date: None,
            admission_or_first_trade_date: Some(Timestamp { seconds: 1738450800, nanos: 0 }),
            termination_date: None,
        })
    );
    assert_eq!(
        decode::<TradingVenueAttributes>("<T><IssrReq>true</IssrReq></T>"),
        Err(XmlError::ElementNotFound)
    );
    assert_eq!(
        decode::<TradingVenueAttributes>("<T><Id>XETR</Id><IssrReq>yes</IssrReq></T>"),
        Err(XmlError::BoolParse)
    );
    assert_eq!(
        decode::<TradingVenueAttributes>(
            "<T><Id>XETR</Id><IssrReq>false</IssrReq><TermntnDt>2025-02-01</TermntnDt></T>"
        ),
        Err(XmlError::DateTimeParse)
    );
}

#[test]
fn interest_rate_is_fixed_or_floating() {
    assert_eq!(
        decode::<InterestRate>("<IntrstRate><Fxd>1.25</Fxd></IntrstRate>"),
        Ok(InterestRate::Fixed(decimal("1.25")))
    );
    assert_eq!(
        decode::<InterestRate>(
            "<IntrstRate><Fltg><RefRate><Indx>EURO</Indx></RefRate><BsisPtSprd>-25</BsisPtSprd></Fltg></IntrstRate>"
        ),
        Ok(InterestRate::Floating(
            FloatingRate { name: Some(IndexName::Code(IndexCode::Euribor)), term: None },
            Some(-25)
        ))
    );
    assert_eq!(
        decode::<InterestRate>("<IntrstRate><Fltg><RefRate><Nm>X</Nm></RefRate></Fltg></IntrstRate>"),
        Ok(InterestRate::Floating(
            FloatingRate { name: Some(IndexName::Text("X".to_string())), term: None },
            None
        ))
    );
    assert_eq!(decode::<InterestRate>("<IntrstRate/>"), Err(XmlError::ElementNotFound));
    assert_eq!(
        decode::<InterestRate>("<IntrstRate><Other>1</Other></IntrstRate>"),
        Err(XmlError::ElementNotFound)
    );
}

#[test]
fn interest_rate_with_both_children_is_floating() {
    assert_eq!(
        decode::<InterestRate>(
            "<IntrstRate><Fxd>1.25</Fxd><Fltg><RefRate><Nm>X</Nm></RefRate></Fltg></IntrstRate>"
        )
        .map(|r| matches!(r, InterestRate::Floating(_, _))),
        Ok(true)
    );
}

#[test]
fn interest_rate_faults() {
    assert_eq!(
        decode::<InterestRate>("<IntrstRate><Fxd>high</Fxd></IntrstRate>"),
        Err(XmlError::FloatParse)
    );
    assert_eq!(
        decode::<InterestRate>("<IntrstRate><Fltg/></IntrstRate>"),
        Err(XmlError::ElementNotFound)
    );
    assert_eq!(
        decode::<InterestRate>(
            "<IntrstRate><Fltg><RefRate/><BsisPtSprd>2.5</BsisPtSprd></Fltg></IntrstRate>"
        ),
        Err(XmlError::IntParse)
    );
}

#[test]
fn publication_period() {
    assert_eq!(
        decode::<PublicationPeriod>("<PblctnPrd><FrDt>2018-01-03</FrDt></PblctnPrd>"),
        Ok(PublicationPeriod { from_date: Date { year: 2018, month: 1, day: 3 }, to_date: None })
    );
    assert_eq!(
        decode::<PublicationPeriod>("<PblctnPrd><FrDtToDt>2018-01-03<ToDt>2018-02-04T00:00:00</ToDt></FrDtToDt></PblctnPrd>"),
        Ok(PublicationPeriod {
            from_date: Date { year: 2018, month: 1, day: 3 },
            to_date: Some(Date { year: 2018, month: 2, day: 4 }),
        })
    );
    assert_eq!(
        decode::<PublicationPeriod>("<PblctnPrd><FrDtToDt>2018-01-03</FrDtToDt></PblctnPrd>"),
        Ok(PublicationPeriod { from_date: Date { year: 2018, month: 1, day: 3 }, to_date: None })
    );
    assert_eq!(decode::<PublicationPeriod>("<PblctnPrd/>"), Err(XmlError::ElementNotFound));
    assert_eq!(
        decode::<PublicationPeriod>("<PblctnPrd><FrDt>2018-01-03T00:00:00</FrDt></PblctnPrd>"),
        Err(XmlError::DateTimeParse)
    );
    assert_eq!(
        decode::<PublicationPeriod>(
            "<PblctnPrd><FrDtToDt><FrDt>2018-01-03</FrDt><ToDt>2018-02-04</ToDt></FrDtToDt></PblctnPrd>"
        ),
        Err(XmlError::DateTimeParse)
    );
}

#[test]
fn technical_attributes() {
    assert_eq!(
        decode::<TechnicalAttributes>(
            "<TechAttrbts><RlvntCmptntAuthrty>DE</RlvntCmptntAuthrty><PblctnPrd><FrDt>2018-01-03</FrDt></PblctnPrd><RlvntTradgVn>XETR</RlvntTradgVn></TechAttrbts>"
        ),
        Ok(TechnicalAttributes {
            relevant_competent_authority: text("DE"),
            publication_period: Some(PublicationPeriod {
                from_date: Date { year: 2018, month: 1, day: 3 },
                to_date: None,
            }),
            relevant_trading_venue: text("XETR"),
        })
    );
    assert_eq!(
        decode::<TechnicalAttributes>("<TechAttrbts/>"),
        Ok(TechnicalAttributes {
            relevant_competent_authority: None,
            publication_period: None,
            relevant_trading_venue: None,
        })
    );
    assert_eq!(
        decode::<TechnicalAttributes>("<TechAttrbts><PblctnPrd/></TechAttrbts>"),
        Err(XmlError::ElementNotFound)
    );
}

const DEBT: &str = "<DebtInstrmAttrbts><TtlIssdNmnlAmt Ccy=\"EUR\">500000000</TtlIssdNmnlAmt><MtrtyDt>2030-06-15</MtrtyDt><NmnlValPerUnit Ccy=\"EUR\">1000.00</NmnlValPerUnit><IntrstRate><Fxd>2.75</Fxd></IntrstRate><DebtSnrty>SNDB</DebtSnrty></DebtInstrmAttrbts>";

fn debt() -> DebtAttributes {
    DebtAttributes {
        total_issued_amount: decimal("500000000"),
        maturity_date: Some(Date { year: 2030, month: 6, day: 15 }),
        nominal_currency: "EUR".to_string(),
        nominal_value_per_unit: decimal("1000.00"),
        interest_rate: InterestRate::Fixed(decimal("2.75")),
        seniority: Some(DebtSeniority::Senior),
    }
}

#[test]
fn debt_attributes() {
    assert_eq!(decode::<DebtAttributes>(DEBT), Ok(debt()));
    assert_eq!(
        decode::<DebtAttributes>(
            "<D><TtlIssdNmnlAmt Ccy=\"USD\">1e6</TtlIssdNmnlAmt><NmnlValPerUnit>1</NmnlValPerUnit><IntrstRate><Fxd>0</Fxd></IntrstRate></D>"
        ),
        Ok(DebtAttributes {
            total_issued_amount: decimal("1e6"),
            maturity_date: None,
            nominal_currency: "USD".to_string(),
            nominal_value_per_unit: decimal("1"),
            interest_rate: InterestRate::Fixed(decimal("0")),
            seniority: None,
        })
    );
}

#[test]
fn debt_attributes_faults_in_the_order_of_the_fields() {
    assert_eq!(decode::<DebtAttributes>("<D/>"), Err(XmlError::ElementNotFound));
    assert_eq!(
        decode::<DebtAttributes>("<D><TtlIssdNmnlAmt>many</TtlIssdNmnlAmt><MtrtyDt>x</MtrtyDt></D>"),
        Err(XmlError::FloatParse)
    );
    assert_eq!(
        decode::<DebtAttributes>("<D><TtlIssdNmnlAmt>1</TtlIssdNmnlAmt><MtrtyDt>x</MtrtyDt></D>"),
        Err(XmlError::DateTimeParse)
    );
    assert_eq!(
        decode::<DebtAttributes>("<D><TtlIssdNmnlAmt>1</TtlIssdNmnlAmt></D>"),
        Err(XmlError::AttributeNotFound)
    );
    assert_eq!(
        decode::<DebtAttributes>("<D><TtlIssdNmnlAmt Ccy=\"EUR\">1</TtlIssdNmnlAmt></D>"),
        Err(XmlError::ElementNotFound)
    );
    assert_eq!(
        decode::<DebtAttributes>(
            "<D><TtlIssdNmnlAmt Ccy=\"EUR\">1</TtlIssdNmnlAmt><NmnlValPerUnit>1</NmnlValPerUnit><IntrstRate><Fxd>1</Fxd></IntrstRate><DebtSnrty>TOP</DebtSnrty></D>"
        ),
        Err(XmlError::EnumParse("TOP".to_string()))
    );
}

#[test]
fn classification_from_an_element() {
    assert_eq!(
        decode::<BaseProduct>("<Oil><BasePdct>NRGY</BasePdct><SubPdct>OILP</SubPdct><AddtlSubPdct>BRNT</AddtlSubPdct></Oil>"),
        Ok(BaseProduct::Energy(EnergySubProduct::Oil(Some(OilFurtherSubProduct::Brent))))
    );
    assert_eq!(decode::<BaseProduct>("<Othr><BasePdct>OTHR</BasePdct></Othr>"), Ok(BaseProduct::Other));
    assert_eq!(decode::<BaseProduct>("<Othr><SubPdct>OILP</SubPdct></Othr>"), Err(XmlError::ElementNotFound));
    assert_eq!(
        decode::<BaseProduct>("<X><BasePdct>MCEX</BasePdct><SubPdct>GROS</SubPdct></X>"),
        Err(XmlError::Product(ProductError::BadProduct))
    );
    assert_eq!(
        decode::<BaseProduct>("<X><BasePdct>NRGY</BasePdct><SubPdct>ELEC</SubPdct></X>"),
        Err(XmlError::Product(ProductError::NoSubProduct))
    );
    assert_eq!(
        decode::<BaseProduct>("<X><BasePdct>NRGY</BasePdct><SubPdct>WIND</SubPdct></X>"),
        Err(XmlError::Product(ProductError::BadSubProduct))
    );
}

#[test]
fn commodity_attributes_at_either_depth() {
    assert_eq!(
        decode::<CommodityDerivativeAttributes>(
            "<Cmmdty><Pdct><Nrgy><Oil><BasePdct>NRGY</BasePdct><SubPdct>OILP</SubPdct><AddtlSubPdct>BRNT</AddtlSubPdct></Oil></Nrgy></Pdct><TxTp>FUTR</TxTp><FnlPricTp>EXOF</FnlPricTp></Cmmdty>"
        ),
        Ok(CommodityDerivativeAttributes {
            product: BaseProduct::Energy(EnergySubProduct::Oil(Some(OilFurtherSubProduct::Brent))),
            transaction_type: Some(TransactionType::Futures),
            final_price_type: Some(FinalPriceType::Exchange),
        })
    );
    assert_eq!(
        decode::<CommodityDerivativeAttributes>(
            "<Cmmdty><Pdct><Othr><BasePdct>OTHR</BasePdct></Othr></Pdct></Cmmdty>"
        ),
        Ok(CommodityDerivativeAttributes {
            product: BaseProduct::Other,
            transaction_type: None,
            final_price_type: None,
        })
    );
    assert_eq!(
        decode::<CommodityDerivativeAttributes>(
            "<Cmmdty><Pdct><Agrcltrl><Ptt><BasePdct>AGRI</BasePdct><SubPdct>POTA</SubPdct></Ptt></Agrcltrl></Pdct></Cmmdty>"
        )
        .map(|c| c.product),
        Ok(BaseProduct::Agricultural(AgriculturalSubProduct::Potato))
    );
}

#[test]
fn commodity_attributes_faults() {
    assert_eq!(decode::<CommodityDerivativeAttributes>("<Cmmdty/>"), Err(XmlError::ElementNotFound));
    assert_eq!(
        decode::<CommodityDerivativeAttributes>("<Cmmdty><Pdct/></Cmmdty>"),
        Err(XmlError::ElementNotFound)
    );
    assert_eq!(
        decode::<CommodityDerivativeAttributes>("<Cmmdty><Pdct><Nrgy/></Pdct></Cmmdty>"),
        Err(XmlError::ElementNotFound)
    );
    assert_eq!(
        decode::<CommodityDerivativeAttributes>(
            "<Cmmdty><Pdct><Nrgy><BasePdct>NRGY</BasePdct><Oil><BasePdct>NRGY</BasePdct><SubPdct>OILP</SubPdct></Oil></Nrgy></Pdct></Cmmdty>"
        ),
        Err(XmlError::ElementNotFound)
    );
    assert_eq!(
        decode::<CommodityDerivativeAttributes>(
            "<Cmmdty><Pdct><Nrgy><Oil><BasePdct>NRGY</BasePdct><SubPdct>OILP</SubPdct><AddtlSubPdct>WIND</AddtlSubPdct></Oil></Nrgy></Pdct></Cmmdty>"
        ),
        Err(XmlError::Product(ProductError::BadSubProduct))
    );
    assert_eq!(
        decode::<CommodityDerivativeAttributes>(
            "<Cmmdty><Pdct><Othr><BasePdct>OTHR</BasePdct></Othr></Pdct><TxTp>SPOT</TxTp></Cmmdty>"
        ),
        Err(XmlError::EnumParse("SPOT".to_string()))
    );
}

#[test]
fn interest_rate_derivative_attributes() {
    assert_eq!(
        decode::<InterestRateDerivativeAttributes>(
            "<Intrst><IntrstRate><RefRate><Indx>EURO</Indx></RefRate><Term><Unit>MNTH</Unit><Val>3</Val></Term></IntrstRate><FirstLegIntrstRate><Fxd>1.5</Fxd></FirstLegIntrstRate><OtherNtnlCcy>USD</OtherNtnlCcy><OthrLegIntrstRate><Fltg><RefRate><Nm>SOFR</Nm></RefRate></Fltg></OthrLegIntrstRate></Intrst>"
        ),
        Ok(InterestRateDerivativeAttributes {
            reference_rate: FloatingRate {
                name: Some(IndexName::Code(IndexCode::Euribor)),
                term: Some(Term { number: 3, unit: TermUnit::Month }),
            },
            interest_rate_1: Some(InterestRate::Fixed(decimal("1.5"))),
            notional_currency_2: text("USD"),
            interest_rate_2: Some(InterestRate::Floating(
                FloatingRate { name: Some(IndexName::Text("SOFR".to_string())), term: None },
                None
            )),
        })
    );
    assert_eq!(
        decode::<InterestRateDerivativeAttributes>("<Intrst/>"),
        Err(XmlError::ElementNotFound)
    );
    assert_eq!(
        decode::<InterestRateDerivativeAttributes>(
            "<Intrst><IntrstRate><RefRate/></IntrstRate><OthrNtnlCcy>USD</OthrNtnlCcy></Intrst>"
        )
        .map(|a| a.notional_currency_2),
        Ok(None)
    );
}

#[test]
fn fx_derivative_attributes() {
    assert_eq!(
        decode::<FxDerivativeAttributes>("<FX><OthrNtnlCcy>USD</OthrNtnlCcy><FxTp>FXMJ</FxTp></FX>"),
        Ok(FxDerivativeAttributes { notional_currency_2: text("USD"), fx_type: Some(FxType::Majors) })
    );
    assert_eq!(
        decode::<FxDerivativeAttributes>("<FX/>"),
        Ok(FxDerivativeAttributes { notional_currency_2: None, fx_type: None })
    );
    assert_eq!(
        decode::<FxDerivativeAttributes>("<FX><FxTp>FXXX</FxTp></FX>"),
        Err(XmlError::EnumParse("FXXX".to_string()))
    );
}

#[test]
fn single_underlying_is_decided_by_the_first_child() {
    assert_eq!(
        decode::<UnderlyingSingle>("<Sngl><ISIN>DE0008469008</ISIN></Sngl>"),
        Ok(UnderlyingSingle::Isin("DE0008469008".to_string()))
    );
    assert_eq!(
        decode::<UnderlyingSingle>("<Sngl><LEI>549300JSX0Z4CW0V5023</LEI><ISIN>X</ISIN></Sngl>"),
        Ok(UnderlyingSingle::Lei("549300JSX0Z4CW0V5023".to_string()))
    );
    assert_eq!(
        decode::<UnderlyingSingle>("<Sngl><Indx><Nm><RefRate><Nm>DAX</Nm></RefRate></Nm></Indx></Sngl>"),
        Ok(UnderlyingSingle::Index(Index {
            isin: None,
            name: FloatingRate { name: Some(IndexName::Text("DAX".to_string())), term: None },
        }))
    );
    assert_eq!(decode::<UnderlyingSingle>("<Sngl/>"), Err(XmlError::ElementNotFound));
    assert_eq!(
        decode::<UnderlyingSingle>("<Sngl><Name>x</Name><ISIN>X</ISIN></Sngl>"),
        Err(XmlError::EnumParse("Name".to_string()))
    );
    assert_eq!(decode::<UnderlyingSingle>("<Sngl><Indx/></Sngl>"), Err(XmlError::ElementNotFound));
}

#[test]
fn basket() {
    assert_eq!(
        decode::<UnderlyingBasket>("<Bskt><ISIN>A</ISIN><LEI>L1</LEI><ISIN>B</ISIN><ISIN>A</ISIN><LEI>L2</LEI></Bskt>"),
        Ok(UnderlyingBasket {
            isin: vec!["A".to_string(), "B".to_string(), "A".to_string()],
            issuer_lei: vec!["L1".to_string(), "L2".to_string()],
        })
    );
    assert_eq!(
        decode::<UnderlyingBasket>("<Bskt/>"),
        Ok(UnderlyingBasket { isin: vec![], issuer_lei: vec![] })
    );
    assert_eq!(
        decode::<UnderlyingBasket>("<Bskt><ISIN>A</ISIN><Indx/></Bskt>"),
        Err(XmlError::UnexpectedElement)
    );
}

#[test]
fn underlying_is_single_or_basket() {
    assert_eq!(
        decode::<DerivativeUnderlying>("<UndrlygInstrm><Sngl><ISIN>A</ISIN></Sngl></UndrlygInstrm>"),
        Ok(DerivativeUnderlying::Single(UnderlyingSingle::Isin("A".to_string())))
    );
    assert_eq!(
        decode::<DerivativeUnderlying>("<UndrlygInstrm><Bskt><LEI>L</LEI></Bskt></UndrlygInstrm>"),
        Ok(DerivativeUnderlying::Basket(UnderlyingBasket {
            isin: vec![],
            issuer_lei: vec!["L".to_string()],
        }))
    );
    assert_eq!(decode::<DerivativeUnderlying>("<UndrlygInstrm/>"), Err(XmlError::ElementNotFound));
    assert_eq!(
        decode::<DerivativeUnderlying>("<UndrlygInstrm><ISIN>A</ISIN></UndrlygInstrm>"),
        Err(XmlError::UnexpectedElement)
    );
    assert_eq!(
        decode::<DerivativeUnderlying>("<UndrlygInstrm><Sngl/></UndrlygInstrm>"),
        Err(XmlError::ElementNotFound)
    );
}

#[test]
fn asset_class_specific_attributes() {
    assert_eq!(
        decode::<AssetClassSpecificAttributes>(
            "<A><FX><FxTp>FXCR</FxTp></FX><Cmmdty><Pdct><Othr><BasePdct>OTHR</BasePdct></Othr></Pdct></Cmmdty></A>"
        ),
        Ok(AssetClassSpecificAttributes {
            commodity_attributes: Some(CommodityDerivativeAttributes {
                product: BaseProduct::Other,
                transaction_type: None,
                final_price_type: None,
            }),
            ir_attributes: None,
            fx_attributes: Some(FxDerivativeAttributes {
                notional_currency_2: None,
                fx_type: Some(FxType::CrossRates),
            }),
        })
    );
    assert_eq!(decode::<AssetClassSpecificAttributes>("<A/>"), Ok(AssetClassSpecificAttributes::default()));
    assert_eq!(
        decode::<AssetClassSpecificAttributes>("<A><FX/><Eqty/><FX><FxTp>bad</FxTp></FX></A>"),
        Err(XmlError::UnexpectedElement)
    );
    assert_eq!(
        decode::<AssetClassSpecificAttributes>("<A><FX><FxTp>FXCR</FxTp></FX><FX/></A>")
            .map(|a| a.fx_attributes),
        Ok(Some(FxDerivativeAttributes { notional_currency_2: None, fx_type: None }))
    );
}

const DERIVATIVE: &str = "<DerivInstrmAttrbts><XpryDt>2025-06-20</XpryDt><PricMltplr>100</PricMltplr><UndrlygInstrm><Sngl><ISIN>DE0008469008</ISIN></Sngl></UndrlygInstrm><OptnTp>CALL</OptnTp><StrkPric><Pric><MntryVal><Amt Ccy=\"EUR\">17500</Amt></MntryVal></Pric></StrkPric><OptnExrcStyle>EURO</OptnExrcStyle><DlvryTp>CASH</DlvryTp><AsstClssSpcfcAttrbts><FX><OthrNtnlCcy>USD</OthrNtnlCcy></FX></AsstClssSpcfcAttrbts></DerivInstrmAttrbts>";

fn derivative() -> DerivativeAttributes {
    DerivativeAttributes {
        expiry_date: Some(Date { year: 2025, month: 6, day: 20 }),
        price_multiplier: Some(decimal("100")),
        underlying: Some(DerivativeUnderlying::Single(UnderlyingSingle::Isin(
            "DE0008469008".to_string(),
        ))),
        option_type: Some(OptionType::Call),
        strike_price: Some(StrikePrice {
            price_type: StrikePriceType::MonetaryValue,
            price: Some(decimal("17500")),
            pending: false,
            currency: None,
        }),
        option_exercise_style: Some(OptionExerciseStyle::European),
        delivery_type: Some(DeliveryType::Cash),
        asset_class_specific_attributes: Some(AssetClassSpecificAttributes {
            commodity_attributes: None,
            ir_attributes: None,
            fx_attributes: Some(FxDerivativeAttributes {
                notional_currency_2: text("USD"),
                fx_type: None,
            }),
        }),
    }
}

#[test]
fn derivative_attributes() {
    assert_eq!(decode::<DerivativeAttributes>(DERIVATIVE), Ok(derivative()));
    assert_eq!(decode::<DerivativeAttributes>("<D/>"), Ok(DerivativeAttributes::default()));
    assert_eq!(
        decode::<DerivativeAttributes>("<D><DlvryTp>PHYS</DlvryTp><DlvryTp>OPTL</DlvryTp></D>")
            .map(|d| d.delivery_type),
        Ok(Some(DeliveryType::Optional))
    );
}

#[test]
fn derivative_attributes_faults() {
    assert_eq!(
        decode::<DerivativeAttributes>("<D><DlvryTp>PHYS</DlvryTp><Unknown/></D>"),
        Err(XmlError::UnexpectedElement)
    );
    assert_eq!(
        decode::<DerivativeAttributes>("<D><XpryDt>2025-06-20T00:00:00</XpryDt></D>"),
        Err(XmlError::DateTimeParse)
    );
    assert_eq!(
        decode::<DerivativeAttributes>("<D><PricMltplr>x</PricMltplr><Unknown/></D>"),
        Err(XmlError::FloatParse)
    );
    assert_eq!(
        decode::<DerivativeAttributes>("<D><OptnTp>BOTH</OptnTp></D>"),
        Err(XmlError::EnumParse("BOTH".to_string()))
    );
    assert_eq!(
        decode::<DerivativeAttributes>("<D><OptnExrcStyle>EUROPEAN</OptnExrcStyle></D>"),
        Err(XmlError::EnumParse("EUROPEAN".to_string()))
    );
    assert_eq!(
        decode::<DerivativeAttributes>("<D><StrkPric/></D>"),
        Err(XmlError::ElementNotFound)
    );
    assert_eq!(
        decode::<DerivativeAttributes>("<D><AsstClssSpcfcAttrbts><Eqty/></AsstClssSpcfcAttrbts></D>"),
        Err(XmlError::UnexpectedElement)
    );
}

fn record(tag: &str, extra: &str) -> String {
    format!(
        "<{tag}><FinInstrmGnlAttrbts><Id>DE000A1EWWW0</Id><FullNm>adidas AG</FullNm><ShrtNm>ADIDAS AG/NA O.N.</ShrtNm><ClssfctnTp>ESVUFR</ClssfctnTp><NtnlCcy>EUR</NtnlCcy><CmmdtyDerivInd>false</CmmdtyDerivInd></FinInstrmGnlAttrbts><Issr>549300JSX0Z4CW0V5023</Issr><TradgVnRltdAttrbts><Id>XETR</Id><IssrReq>true</IssrReq><FrstTradDt>2017-11-16T08:30:00Z</FrstTradDt></TradgVnRltdAttrbts>{extra}</{tag}>"
    )
}

fn reference_data() -> ReferenceData {
    ReferenceData {
        isin: "DE000A1EWWW0".to_string(),
        full_name: "adidas AG".to_string(),
        cfi: "ESVUFR".to_string(),
        is_commodities_derivative: false,
        issuer_lei: "549300JSX0Z4CW0V5023".to_string(),
        fisn: "ADIDAS AG/NA O.N.".to_string(),
        trading_venue_attrs: TradingVenueAttributes {
            trading_venue: "XETR".to_string(),
            requested_admission: true,
            approval_date: None,
            request_date: None,
            admission_or_first_trade_date: Some(Timestamp { seconds: 1510821000, nanos: 0 }),
            termination_date: None,
        },
        notional_currency: "EUR".to_string(),
        technical_attributes: None,
        debt_attributes: None,
        derivative_attributes: None,
    }
}

#[test]
fn reference_data_of_an_instrument() {
    assert_eq!(decode::<ReferenceData>(&record("RefData", "")), Ok(reference_data()));
    let mut full = reference_data();
    full.technical_attributes = Some(TechnicalAttributes {
        relevant_competent_authority: text("DE"),
        publication_period: None,
        relevant_trading_venue: None,
    });
    full.debt_attributes = Some(debt());
    full.derivative_attributes = Some(derivative());
    let extra = format!(
        "<TechAttrbts><RlvntCmptntAuthrty>DE</RlvntCmptntAuthrty></TechAttrbts>{DEBT}{DERIVATIVE}"
    );
    assert_eq!(decode::<ReferenceData>(&record("RefData", &extra)), Ok(full));
}

#[test]
fn reference_data_faults() {
    assert_eq!(decode::<ReferenceData>("<RefData/>"), Err(XmlError::ElementNotFound));
    let no_issuer = record("RefData", "").replace("<Issr>549300JSX0Z4CW0V5023</Issr>", "");
    assert_eq!(decode::<ReferenceData>(&no_issuer), Err(XmlError::ElementNotFound));
    let bad_flag = record("RefData", "").replace("<CmmdtyDerivInd>false", "<CmmdtyDerivInd>0");
    assert_eq!(decode::<ReferenceData>(&bad_flag), Err(XmlError::BoolParse));
    assert_eq!(
        decode::<ReferenceData>(&record("RefData", "<DebtInstrmAttrbts/>")),
        Err(XmlError::ElementNotFound)
    );
    assert_eq!(
        decode::<ReferenceData>(&record("RefData", "<DerivInstrmAttrbts><X/></DerivInstrmAttrbts>")),
        Err(XmlError::UnexpectedElement)
    );
    assert_eq!(
        decode::<ReferenceData>(&record(
            "RefData",
            "<TechAttrbts><PblctnPrd><FrDt>soon</FrDt></PblctnPrd></TechAttrbts>"
        )),
        Err(XmlError::DateTimeParse)
    );
}

#[test]
fn records_of_a_delta_file() {
    assert_eq!(decode::<NewRecord>(&record("NewRcrd", "")), Ok(NewRecord(reference_data())));
    assert_eq!(
        decode::<ModifiedRecord>(&record("ModfdRcrd", "")),
        Ok(ModifiedRecord(reference_data()))
    );
    assert_eq!(
        decode::<TerminatedRecord>(&record("TermntdRcrd", "")),
        Ok(TerminatedRecord(reference_data()))
    );
    assert_eq!(decode::<NewRecord>("<NewRcrd/>"), Err(XmlError::ElementNotFound));
    assert_eq!(decode::<ModifiedRecord>("<ModfdRcrd/>"), Err(XmlError::ElementNotFound));
    assert_eq!(decode::<TerminatedRecord>("<TermntdRcrd/>"), Err(XmlError::ElementNotFound));
}

#[test]
fn codes_in_the_text_of_an_element() {
    assert_eq!(decode::<DebtSeniority>("<DebtSnrty>JUND</DebtSnrty>"), Ok(DebtSeniority::Junior));
    assert_eq!(decode::<TransactionType>("<TxTp>CRCK</TxTp>"), Ok(TransactionType::Crack));
    assert_eq!(decode::<FinalPriceType>("<FnlPricTp>PLAT</FnlPricTp>"), Ok(FinalPriceType::Platts));
    assert_eq!(decode::<FxType>("<FxTp>FXEM</FxTp>"), Ok(FxType::EmergingMarkets));
    assert_eq!(
        decode::<FxType>("<FxTp> FXEM </FxTp>"),
        Err(XmlError::EnumParse(" FXEM ".to_string()))
    );
}

#[test]
fn stream_of_records() {
    let document = format!(
        "<?xml version=\"1.0\"?><Doc xmlns=\"urn:x\"><Hdr><RefDataHdr/></Hdr><Rpt>{}{}<RefData/>{}</Rpt></Doc>",
        record("RefData", ""),
        record("NewRcrd", ""),
        record("RefData", DEBT),
    );
    let mut stream = IterRefData::from_bytes(document.as_bytes());
    assert_eq!(stream.next(), Some(Ok(reference_data())));
    assert_eq!(stream.next(), Some(Err(XmlError::ElementNotFound)));
    let mut with_debt = reference_data();
    with_debt.debt_attributes = Some(debt());
    assert_eq!(stream.next(), Some(Ok(with_debt)));
    assert_eq!(stream.next(), None);
    assert_eq!(stream.next(), None);
}

#[test]
fn stream_of_records_from_given_events() {
    let start = |name: &str| {
        XmlEvent::Start(StartTag {
            qname: name.to_string(),
            local_name: name.to_string(),
            ..Default::default()
        })
    };
    let queue = EventQueue::new(vec![
        XmlEvent::Invalid,
        start("RefData"),
        start("Issr"),
        XmlEvent::Text("L".to_string()),
        XmlEvent::End("Issr".to_string()),
        XmlEvent::End("RefData".to_string()),
    ]);
    let mut stream = IterRefData::new(queue);
    assert_eq!(stream.next(), Some(Err(XmlError::Malformed)));
    assert_eq!(stream.next(), Some(Err(XmlError::ElementNotFound)));
    assert_eq!(stream.next(), None);
}

#[test]
fn strict_stream_of_records() {
    let document = format!("<Doc>{}<RefData><Issr>L</Issr>", record("RefData", ""));
    let mut lenient = IterRefData::from_bytes(document.as_bytes());
    assert_eq!(lenient.next(), Some(Ok(reference_data())));
    assert_eq!(lenient.next(), Some(Err(XmlError::ElementNotFound)));
    assert_eq!(lenient.next(), None);
    let mut strict =
        IterRefData::with_mode(firds::events::XmlReader::new(document.as_bytes()), Mode::Strict);
    assert_eq!(strict.next(), Some(Ok(reference_data())));
    assert_eq!(strict.next(), Some(Err(XmlError::UnexpectedEof)));
    assert_eq!(strict.next(), None);
    let _ = XmlIterator::with_mode(vec![], firds::events::XmlReader::new(b""), Mode::Strict);
}
