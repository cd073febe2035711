//! Decoding records from elements.

use vstd::prelude::*;
use crate::categories::{
    DebtSeniority, DeliveryType, FinalPriceType, FxType, IndexCode, OptionExerciseStyle, OptionType,
    StrikePriceType, TermUnit, TransactionType,
};
use crate::coded::{Coded, lemma_value_of_parsed, value_of};
use crate::element::{Element, ElementView};
use crate::error::{result_view, XmlError, XmlErrorView};
use crate::model::{
    AssetClassSpecificAttributes, AssetClassSpecificAttributesView, CommodityDerivativeAttributes,
    CommodityDerivativeAttributesView, DebtAttributes, DebtAttributesView, DerivativeAttributes,
    DerivativeAttributesView, DerivativeUnderlying, DerivativeUnderlyingView, FloatingRate,
    FloatingRateView, FxDerivativeAttributes, FxDerivativeAttributesView, Index, IndexName,
    IndexNameView, IndexView, InterestRate, InterestRateDerivativeAttributes,
    InterestRateDerivativeAttributesView, InterestRateView, ModifiedRecord, ModifiedRecordView,
    NewRecord, NewRecordView, PublicationPeriod, PublicationPeriodView, ReferenceData,
    ReferenceDataView, StrikePrice, StrikePriceView, TechnicalAttributes, TechnicalAttributesView,
    Term, TerminatedRecord, TerminatedRecordView, TradingVenueAttributes,
    TradingVenueAttributesView, UnderlyingBasket, UnderlyingBasketView, UnderlyingSingle,
    UnderlyingSingleView,
};
use crate::product::BaseProduct;
use crate::parse_utils::{
    child_of, child_or_none, coded_from_text, coded_of_text, date_from_text, date_of, date_or_none,
    datetime_or_none, instant_of, parse_or_none, parsed_of, text_of, text_or_none, FromText,
};
use crate::scalar::{date_of_text, Date, Decimal};
use crate::text::{is_decimal_text, str_eq};

verus! {

/// A record that is decoded from one element.
pub trait FromXml: Sized + DeepView {
    /// The record that an element stands for, or the first fault that decoding
    /// it meets.
    spec fn decode(elem: ElementView) -> Result<Self::V, XmlErrorView>;

    /// Decode the record from the given element.
    fn from_xml(elem: &Element) -> (r: Result<Self, XmlError>)
        ensures
            result_view(r) == Self::decode(elem.deep_view()),
    ;

    /// Decode the record from the given element if there is one. An absent
    /// element gives no record and no error; a present one gives its record or
    /// its error, never the absence of a record.
    fn from_xml_option(elem: Option<&Element>) -> (r: Result<Option<Self>, XmlError>)
        ensures
            result_view(r) == match elem.deep_view() {
                Some(e) => match Self::decode(e) {
                    Ok(v) => Ok(Some(v)),
                    Err(x) => Err(x),
                },
                None => Ok(None),
            },
    {
        match elem {
            Some(e) => match Self::from_xml(e) {
                Ok(v) => Ok(Some(v)),
                Err(x) => Err(x),
            },
            None => Ok(None),
        }
    }
}

/// The record that an element stands for where there is an element.
pub open spec fn decode_option<T: FromXml>(elem: Option<ElementView>) -> Result<
    Option<T::V>,
    XmlErrorView,
> {
    match elem {
        Some(e) => match T::decode(e) {
            Ok(v) => Ok(Some(v)),
            Err(x) => Err(x),
        },
        None => Ok(None),
    }
}

/// Absence and failure are never mixed up: without an element there is no
/// record and no error, and an element that cannot be decoded is an error.
pub proof fn lemma_absent_or_failed<T: FromXml>(elem: ElementView)
    ensures
        decode_option::<T>(None) == Ok::<Option<T::V>, XmlErrorView>(None),
        T::decode(elem) is Err ==> decode_option::<T>(Some(elem)) is Err,
        T::decode(elem) is Ok ==> decode_option::<T>(Some(elem)) == Ok::<
            Option<T::V>,
            XmlErrorView,
        >(Some(T::decode(elem)->Ok_0)),
{
}

/// The text of a string slice that may be absent, as a string of its own.
fn owned(text: Option<&str>) -> (r: Option<String>)
    ensures
        r.deep_view() == text.deep_view(),
{
    match text {
        Some(t) => Some(t.to_owned()),
        None => None,
    }
}

impl FromXml for Term {
    open spec fn decode(elem: ElementView) -> Result<Term, XmlErrorView> {
        let val = elem.child_text("Val"@);
        let number = i32::of_text(val->Ok_0);
        let unit_text = elem.child_text("Unit"@);
        let unit = coded_of_text::<TermUnit>(unit_text->Ok_0);
        if val is Err {
            Err(val->Err_0)
        } else if number is Err {
            Err(number->Err_0)
        } else if unit_text is Err {
            Err(unit_text->Err_0)
        } else if unit is Err {
            Err(unit->Err_0)
        } else {
            Ok(Term { number: number->Ok_0, unit: unit->Ok_0 })
        }
    }

    /// Decode a `Term` element: the number in `Val` and the unit in `Unit`.
    fn from_xml(elem: &Element) -> (r: Result<Self, XmlError>) {
        let number = i32::from_text(elem.child_text("Val")?)?;
        let unit = coded_from_text::<TermUnit>(elem.child_text("Unit")?)?;
        Ok(Term { number, unit })
    }
}

impl FromXml for StrikePrice {
    open spec fn decode(elem: ElementView) -> Result<StrikePriceView, XmlErrorView> {
        match elem.find_child("Pric"@) {
            Some(price_elem) => {
                let monetary = price_elem.find_child("MntryVal"@);
                let amount = child_of(monetary, "Amt"@);
                let percentage = price_elem.find_child("Pctg"@);
                let yield_elem = price_elem.find_child("Yld"@);
                let basis_points = price_elem.find_child("BsisPts"@);
                let price_type = if amount is Some {
                    StrikePriceType::MonetaryValue
                } else if percentage is Some {
                    StrikePriceType::Percentage
                } else if yield_elem is Some {
                    StrikePriceType::Yield
                } else {
                    StrikePriceType::BasisPoints
                };
                let value = if amount is Some {
                    amount
                } else if percentage is Some {
                    percentage
                } else if yield_elem is Some {
                    yield_elem
                } else {
                    basis_points
                };
                if value is None {
                    Err(XmlErrorView::ElementNotFound)
                } else if !is_decimal_text(value->0.text) {
                    Err(XmlErrorView::FloatParse)
                } else {
                    Ok(
                        StrikePriceView {
                            price_type,
                            price: Some(value->0.text),
                            pending: false,
                            currency: text_of(child_of(monetary, "Ccy"@)),
                        },
                    )
                }
            },
            None => {
                let no_price = elem.get_child("NoPric"@);
                let pending = no_price->Ok_0.child_text("Pdg"@);
                if no_price is Err {
                    Err(no_price->Err_0)
                } else if pending is Err {
                    Err(pending->Err_0)
                } else {
                    Ok(
                        StrikePriceView {
                            price_type: StrikePriceType::NoPrice,
                            price: None,
                            pending: pending->Ok_0 == "PNDG"@,
                            currency: text_of(no_price->Ok_0.find_child("Ccy"@)),
                        },
                    )
                }
            },
        }
    }

    /// Decode a `StrkPric` element.
    ///
    /// Where a `Pric` child is present the price is read from the first that
    /// exists of `MntryVal/Amt`, `Pctg`, `Yld` and `BsisPts`, in this order, and
    /// the currency from `MntryVal/Ccy`. Otherwise the element must say in
    /// `NoPric` that there is no price, and whether one is pending.
    fn from_xml(elem: &Element) -> (r: Result<Self, XmlError>) {
        if let Some(price_elem) = elem.find_child("Pric") {
            let monetary_val_elem = price_elem.find_child("MntryVal");
            let (price_type, val_elem) = if let Some(e) = child_or_none(monetary_val_elem, "Amt") {
                (StrikePriceType::MonetaryValue, e)
            } else if let Some(e) = price_elem.find_child("Pctg") {
                (StrikePriceType::Percentage, e)
            } else if let Some(e) = price_elem.find_child("Yld") {
                (StrikePriceType::Yield, e)
            } else if let Some(e) = price_elem.find_child("BsisPts") {
                (StrikePriceType::BasisPoints, e)
            } else {
                return Err(XmlError::ElementNotFound);
            };
            let price = Decimal::from_text(val_elem.text())?;
            let currency = owned(text_or_none(child_or_none(monetary_val_elem, "Ccy")));
            Ok(StrikePrice { price_type, price: Some(price), pending: false, currency })
        } else {
            let no_price_elem = elem.get_child("NoPric")?;
            let pending = str_eq(no_price_elem.child_text("Pdg")?, "PNDG");
            let currency = owned(text_or_none(no_price_elem.find_child("Ccy")));
            Ok(StrikePrice { price_type: StrikePriceType::NoPrice, price: None, pending, currency })
        }
    }
}

/// The name of an index that a text stands for: the code that it is, or else
/// the text itself.
pub open spec fn index_name_of(text: Seq<char>) -> IndexNameView {
    match value_of::<IndexCode>(text) {
        Some(code) => IndexNameView::Code(code),
        None => IndexNameView::Text(text),
    }
}

impl IndexName {
    /// Read the name of an index: one of the four-letter codes, or free text.
    /// Every text is a name.
    pub fn from_str(s: &str) -> (r: Result<IndexName, XmlError>)
        ensures
            r is Ok,
            r->Ok_0.deep_view() == index_name_of(s@),
    {
        let parsed = IndexCode::from_code(s);
        proof {
            lemma_value_of_parsed(s@, parsed);
        }
        match parsed {
            Some(code) => Ok(IndexName::Code(code)),
            None => Ok(IndexName::Text(s.to_owned())),
        }
    }

    /// The name as text: the code of a coded name, or the free text.
    pub fn to_text(&self) -> (r: String)
        ensures
            r@ == match self.deep_view() {
                IndexNameView::Code(code) => code.code_of(),
                IndexNameView::Text(text) => text,
            },
    {
        match self {
            IndexName::Code(code) => code.code().to_owned(),
            IndexName::Text(text) => text.clone(),
        }
    }
}

impl FromXml for FloatingRate {
    open spec fn decode(elem: ElementView) -> Result<FloatingRateView, XmlErrorView> {
        let ref_rate = elem.get_child("RefRate"@);
        let index = text_of(ref_rate->Ok_0.find_child("Indx"@));
        let name = text_of(ref_rate->Ok_0.find_child("Nm"@));
        let term = decode_option::<Term>(elem.find_child("Term"@));
        if ref_rate is Err {
            Err(ref_rate->Err_0)
        } else if term is Err {
            Err(term->Err_0)
        } else {
            Ok(
                FloatingRateView {
                    name: if index is Some {
                        Some(index_name_of(index->0))
                    } else if name is Some {
                        Some(index_name_of(name->0))
                    } else {
                        None
                    },
                    term: term->Ok_0,
                },
            )
        }
    }

    /// Decode a floating rate: the name from `RefRate/Indx`, or else from
    /// `RefRate/Nm`, and the term from `Term` where there is one.
    fn from_xml(elem: &Element) -> (r: Result<Self, XmlError>) {
        let ref_rate_elem = elem.get_child("RefRate")?;
        let name = if let Some(text) = text_or_none(ref_rate_elem.find_child("Indx")) {
            Some(IndexName::from_str(text)?)
        } else if let Some(text) = text_or_none(ref_rate_elem.find_child("Nm")) {
            Some(IndexName::from_str(text)?)
        } else {
            None
        };
        Ok(FloatingRate { name, term: Term::from_xml_option(elem.find_child("Term"))? })
    }
}

impl FromXml for Index {
    open spec fn decode(elem: ElementView) -> Result<IndexView, XmlErrorView> {
        let name_elem = elem.get_child("Nm"@);
        let name = FloatingRate::decode(name_elem->Ok_0);
        if name_elem is Err {
            Err(name_elem->Err_0)
        } else if name is Err {
            Err(name->Err_0)
        } else {
            Ok(IndexView { isin: text_of(elem.find_child("ISIN"@)), name: name->Ok_0 })
        }
    }

    /// Decode an index: the ISIN from `ISIN` where there is one, and the rate
    /// from `Nm`.
    fn from_xml(elem: &Element) -> (r: Result<Self, XmlError>) {
        Ok(
            Index {
                isin: owned(text_or_none(elem.find_child("ISIN"))),
                name: FloatingRate::from_xml(elem.get_child("Nm")?)?,
            },
        )
    }
}

impl FromXml for TradingVenueAttributes {
    open spec fn decode(elem: ElementView) -> Result<TradingVenueAttributesView, XmlErrorView> {
        let venue = elem.child_text("Id"@);
        let request = elem.child_text("IssrReq"@);
        let requested = bool::of_text(request->Ok_0);
        let approval = instant_of(elem.find_child("AdmssnApprvlDtByIssr"@));
        let request_date = instant_of(elem.find_child("ReqForAdmssnDt"@));
        let first_trade = instant_of(elem.find_child("FrstTradDt"@));
        let termination = instant_of(elem.find_child("TermntnDt"@));
        if venue is Err {
            Err(venue->Err_0)
        } else if request is Err {
            Err(request->Err_0)
        } else if requested is Err {
            Err(requested->Err_0)
        } else if approval is Err {
            Err(approval->Err_0)
        } else if request_date is Err {
            Err(request_date->Err_0)
        } else if first_trade is Err {
            Err(first_trade->Err_0)
        } else if termination is Err {
            Err(termination->Err_0)
        } else {
            Ok(
                TradingVenueAttributesView {
                    trading_venue: venue->Ok_0,
                    requested_admission: requested->Ok_0,
                    approval_date: approval->Ok_0,
                    request_date: request_date->Ok_0,
                    admission_or_first_trade_date: first_trade->Ok_0,
                    termination_date: termination->Ok_0,
                },
            )
        }
    }

    /// Decode a `TradgVnRltdAttrbts` element.
    fn from_xml(elem: &Element) -> (r: Result<Self, XmlError>) {
        Ok(
            TradingVenueAttributes {
                trading_venue: elem.child_text("Id")?.to_owned(),
                requested_admission: bool::from_text(elem.child_text("IssrReq")?)?,
                approval_date: datetime_or_none(elem.find_child("AdmssnApprvlDtByIssr"))?,
                request_date: datetime_or_none(elem.find_child("ReqForAdmssnDt"))?,
                admission_or_first_trade_date: datetime_or_none(elem.find_child("FrstTradDt"))?,
                termination_date: datetime_or_none(elem.find_child("TermntnDt"))?,
            },
        )
    }
}

impl FromXml for InterestRate {
    open spec fn decode(elem: ElementView) -> Result<InterestRateView, XmlErrorView> {
        match elem.find_child("Fltg"@) {
            Some(floating) => {
                let rate = FloatingRate::decode(floating);
                let spread = parsed_of::<i32>(floating.find_child("BsisPtSprd"@));
                if rate is Err {
                    Err(rate->Err_0)
                } else if spread is Err {
                    Err(spread->Err_0)
                } else {
                    Ok(InterestRateView::Floating(rate->Ok_0, spread->Ok_0))
                }
            },
            None => {
                let fixed = elem.child_text("Fxd"@);
                if fixed is Err {
                    Err(fixed->Err_0)
                } else if !is_decimal_text(fixed->Ok_0) {
                    Err(XmlErrorView::FloatParse)
                } else {
                    Ok(InterestRateView::Fixed(fixed->Ok_0))
                }
            },
        }
    }

    /// Decode an `IntrstRate` element: a floating rate where a `Fltg` child is
    /// present, with the spread from `Fltg/BsisPtSprd` where there is one, and
    /// otherwise the fixed rate in `Fxd`.
    fn from_xml(elem: &Element) -> (r: Result<Self, XmlError>) {
        if let Some(fltg) = elem.find_child("Fltg") {
            Ok(
                InterestRate::Floating(
                    FloatingRate::from_xml(fltg)?,
                    parse_or_none::<i32>(fltg.find_child("BsisPtSprd"))?,
                ),
            )
        } else {
            Ok(InterestRate::Fixed(Decimal::from_text(elem.child_text("Fxd")?)?))
        }
    }
}

/// The choice between the two kinds of interest rate is decided by which child
/// is present: with a `Fxd` child and no `Fltg` child the rate is fixed, if it
/// decodes at all; with a `Fltg` child it is floating, if it decodes at all;
/// and with neither child there is no rate, but an error.
pub proof fn lemma_interest_rate_choice(elem: ElementView)
    ensures
        elem.find_child("Fltg"@) is None && elem.find_child("Fxd"@) is Some ==> (
        InterestRate::decode(elem) is Ok <==> is_decimal_text(elem.find_child("Fxd"@)->0.text)),
        elem.find_child("Fltg"@) is None && InterestRate::decode(elem) is Ok ==> InterestRate::decode(
            elem,
        )->Ok_0 == InterestRateView::Fixed(elem.find_child("Fxd"@)->0.text),
        elem.find_child("Fltg"@) is Some && InterestRate::decode(elem) is Ok ==> InterestRate::decode(
            elem,
        )->Ok_0 is Floating,
        elem.find_child("Fltg"@) is None && elem.find_child("Fxd"@) is None ==> InterestRate::decode(
            elem,
        ) == Err::<InterestRateView, XmlErrorView>(XmlErrorView::ElementNotFound),
{
}

/// The date that a whole text denotes, or the error for a text that denotes none.
pub open spec fn whole_date_of(text: Seq<char>) -> Result<Date, XmlErrorView> {
    match date_of_text(text) {
        Some(d) => Ok(d),
        None => Err(XmlErrorView::DateTimeParse),
    }
}

impl FromXml for PublicationPeriod {
    open spec fn decode(elem: ElementView) -> Result<PublicationPeriodView, XmlErrorView> {
        match elem.find_child("FrDtToDt"@) {
            Some(range) => {
                let from = whole_date_of(range.text);
                let to = date_of(range.find_child("ToDt"@));
                if from is Err {
                    Err(from->Err_0)
                } else if to is Err {
                    Err(to->Err_0)
                } else {
                    Ok(PublicationPeriodView { from_date: from->Ok_0, to_date: to->Ok_0 })
                }
            },
            None => {
                let text = elem.child_text("FrDt"@);
                let from = whole_date_of(text->Ok_0);
                if text is Err {
                    Err(text->Err_0)
                } else if from is Err {
                    Err(from->Err_0)
                } else {
                    Ok(PublicationPeriodView { from_date: from->Ok_0, to_date: None })
                }
            },
        }
    }

    /// Decode a `PblctnPrd` element.
    ///
    /// Where a `FrDtToDt` child is present, its own text is read as the first
    /// day and its `ToDt` child as the last. Otherwise the first day is read
    /// from `FrDt`, and the period has no last day.
    fn from_xml(elem: &Element) -> (r: Result<Self, XmlError>) {
        if let Some(fdtd) = elem.find_child("FrDtToDt") {
            Ok(
                PublicationPeriod {
                    from_date: date_from_text(fdtd.text())?,
                    to_date: date_or_none(fdtd.find_child("ToDt"))?,
                },
            )
        } else {
            Ok(PublicationPeriod { from_date: date_from_text(elem.child_text("FrDt")?)?, to_date: None })
        }
    }
}

impl FromXml for TechnicalAttributes {
    open spec fn decode(elem: ElementView) -> Result<TechnicalAttributesView, XmlErrorView> {
        let period = decode_option::<PublicationPeriod>(elem.find_child("PblctnPrd"@));
        if period is Err {
            Err(period->Err_0)
        } else {
            Ok(
                TechnicalAttributesView {
                    relevant_competent_authority: text_of(elem.find_child("RlvntCmptntAuthrty"@)),
                    publication_period: period->Ok_0,
                    relevant_trading_venue: text_of(elem.find_child("RlvntTradgVn"@)),
                },
            )
        }
    }

    /// Decode a `TechAttrbts` element.
    fn from_xml(elem: &Element) -> (r: Result<Self, XmlError>) {
        Ok(
            TechnicalAttributes {
                relevant_competent_authority: owned(
                    text_or_none(elem.find_child("RlvntCmptntAuthrty")),
                ),
                publication_period: PublicationPeriod::from_xml_option(elem.find_child("PblctnPrd"))?,
                relevant_trading_venue: owned(text_or_none(elem.find_child("RlvntTradgVn"))),
            },
        )
    }
}

/// The value that stands for an element whose text is the code of a closed
/// enumeration.
pub open spec fn coded_element<T: Coded>(elem: ElementView) -> Result<T, XmlErrorView> {
    coded_of_text::<T>(elem.text)
}

impl FromXml for DebtSeniority {
    open spec fn decode(elem: ElementView) -> Result<DebtSeniority, XmlErrorView> {
        coded_element::<DebtSeniority>(elem)
    }

    /// Decode a `DebtSnrty` element.
    fn from_xml(elem: &Element) -> (r: Result<Self, XmlError>) {
        coded_from_text::<DebtSeniority>(elem.text())
    }
}

impl FromXml for TransactionType {
    open spec fn decode(elem: ElementView) -> Result<TransactionType, XmlErrorView> {
        coded_element::<TransactionType>(elem)
    }

    /// Decode a `TxTp` element.
    fn from_xml(elem: &Element) -> (r: Result<Self, XmlError>) {
        coded_from_text::<TransactionType>(elem.text())
    }
}

impl FromXml for FinalPriceType {
    open spec fn decode(elem: ElementView) -> Result<FinalPriceType, XmlErrorView> {
        coded_element::<FinalPriceType>(elem)
    }

    /// Decode a `FnlPricTp` element.
    fn from_xml(elem: &Element) -> (r: Result<Self, XmlError>) {
        coded_from_text::<FinalPriceType>(elem.text())
    }
}

impl FromXml for FxType {
    open spec fn decode(elem: ElementView) -> Result<FxType, XmlErrorView> {
        coded_element::<FxType>(elem)
    }

    /// Decode a `FxTp` element.
    fn from_xml(elem: &Element) -> (r: Result<Self, XmlError>) {
        coded_from_text::<FxType>(elem.text())
    }
}

impl FromXml for DebtAttributes {
    open spec fn decode(elem: ElementView) -> Result<DebtAttributesView, XmlErrorView> {
        let amount_elem = elem.get_child("TtlIssdNmnlAmt"@);
        let amount = Decimal::of_text(amount_elem->Ok_0.text);
        let maturity = date_of(elem.find_child("MtrtyDt"@));
        let currency = amount_elem->Ok_0.get_attr("Ccy"@);
        let unit_text = elem.child_text("NmnlValPerUnit"@);
        let unit = Decimal::of_text(unit_text->Ok_0);
        let rate_elem = elem.get_child("IntrstRate"@);
        let rate = InterestRate::decode(rate_elem->Ok_0);
        let seniority = decode_option::<DebtSeniority>(elem.find_child("DebtSnrty"@));
        if amount_elem is Err {
            Err(amount_elem->Err_0)
        } else if amount is Err {
            Err(amount->Err_0)
        } else if maturity is Err {
            Err(maturity->Err_0)
        } else if currency is Err {
            Err(currency->Err_0)
        } else if unit_text is Err {
            Err(unit_text->Err_0)
        } else if unit is Err {
            Err(unit->Err_0)
        } else if rate_elem is Err {
            Err(rate_elem->Err_0)
        } else if rate is Err {
            Err(rate->Err_0)
        } else if seniority is Err {
            Err(seniority->Err_0)
        } else {
            Ok(
                DebtAttributesView {
                    total_issued_amount: amount->Ok_0,
                    maturity_date: maturity->Ok_0,
                    nominal_currency: currency->Ok_0,
                    nominal_value_per_unit: unit->Ok_0,
                    interest_rate: rate->Ok_0,
                    seniority: seniority->Ok_0,
                },
            )
        }
    }

    /// Decode a `DebtInstrmAttrbts` element. The nominal currency is the `Ccy`
    /// attribute of the total issued amount.
    fn from_xml(elem: &Element) -> (r: Result<Self, XmlError>) {
        let issued_amount_elem = elem.get_child("TtlIssdNmnlAmt")?;
        Ok(
            DebtAttributes {
                total_issued_amount: Decimal::from_text(issued_amount_elem.text())?,
                maturity_date: date_or_none(elem.find_child("MtrtyDt"))?,
                nominal_currency: issued_amount_elem.get_attr("Ccy")?.clone(),
                nominal_value_per_unit: Decimal::from_text(elem.child_text("NmnlValPerUnit")?)?,
                interest_rate: InterestRate::from_xml(elem.get_child("IntrstRate")?)?,
                seniority: DebtSeniority::from_xml_option(elem.find_child("DebtSnrty"))?,
            },
        )
    }
}

impl FromXml for BaseProduct {
    open spec fn decode(elem: ElementView) -> Result<BaseProduct, XmlErrorView> {
        let base = elem.child_text("BasePdct"@);
        if base is Err {
            Err(base->Err_0)
        } else {
            match BaseProduct::decode(
                base->Ok_0,
                text_of(elem.find_child("SubPdct"@)),
                text_of(elem.find_child("AddtlSubPdct"@)),
            ) {
                Ok(product) => Ok(product),
                Err(e) => Err(XmlErrorView::Product(e)),
            }
        }
    }

    /// Decode the classification of a commodity from an element that holds a
    /// `BasePdct` child and, where the classification has them, `SubPdct` and
    /// `AddtlSubPdct` children.
    fn from_xml(elem: &Element) -> (r: Result<Self, XmlError>) {
        let base = elem.child_text("BasePdct")?;
        match BaseProduct::try_from_codes(
            base,
            text_or_none(elem.find_child("SubPdct")),
            text_or_none(elem.find_child("AddtlSubPdct")),
        ) {
            Ok(product) => Ok(product),
            Err(e) => Err(XmlError::Product(e)),
        }
    }
}

impl FromXml for CommodityDerivativeAttributes {
    open spec fn decode(elem: ElementView) -> Result<CommodityDerivativeAttributesView, XmlErrorView> {
        let wrapper = elem.get_child("Pdct"@);
        let outer = wrapper->Ok_0.get_first_child();
        let direct = <BaseProduct as FromXml>::decode(outer->Ok_0);
        let inner = outer->Ok_0.get_first_child();
        let nested = <BaseProduct as FromXml>::decode(inner->Ok_0);
        let transaction = decode_option::<TransactionType>(elem.find_child("TxTp"@));
        let final_price = decode_option::<FinalPriceType>(elem.find_child("FnlPricTp"@));
        if wrapper is Err {
            Err(wrapper->Err_0)
        } else if outer is Err {
            Err(outer->Err_0)
        } else if direct is Err && inner is Err {
            Err(inner->Err_0)
        } else if direct is Err && nested is Err {
            Err(nested->Err_0)
        } else if transaction is Err {
            Err(transaction->Err_0)
        } else if final_price is Err {
            Err(final_price->Err_0)
        } else {
            Ok(
                CommodityDerivativeAttributesView {
                    product: if direct is Ok {
                        direct->Ok_0
                    } else {
                        nested->Ok_0
                    },
                    transaction_type: transaction->Ok_0,
                    final_price_type: final_price->Ok_0,
                },
            )
        }
    }

    /// Decode a `Cmmdty` element.
    ///
    /// The classification stands one level below `Pdct` for a base product
    /// that stands alone, and two levels below it otherwise: it is read from
    /// the first child of `Pdct`, and where that fails, from the first child of
    /// that child.
    fn from_xml(elem: &Element) -> (r: Result<Self, XmlError>) {
        let prod_elem = elem.get_child("Pdct")?;
        let child = prod_elem.get_first_child()?;
        let product = match BaseProduct::from_xml(child) {
            Ok(p) => p,
            Err(_) => BaseProduct::from_xml(child.get_first_child()?)?,
        };
        Ok(
            CommodityDerivativeAttributes {
                product,
                transaction_type: TransactionType::from_xml_option(elem.find_child("TxTp"))?,
                final_price_type: FinalPriceType::from_xml_option(elem.find_child("FnlPricTp"))?,
            },
        )
    }
}

impl FromXml for InterestRateDerivativeAttributes {
    open spec fn decode(elem: ElementView) -> Result<
        InterestRateDerivativeAttributesView,
        XmlErrorView,
    > {
        let rate_elem = elem.get_child("IntrstRate"@);
        let rate = FloatingRate::decode(rate_elem->Ok_0);
        let first = decode_option::<InterestRate>(elem.find_child("FirstLegIntrstRate"@));
        let other = decode_option::<InterestRate>(elem.find_child("OthrLegIntrstRate"@));
        if rate_elem is Err {
            Err(rate_elem->Err_0)
        } else if rate is Err {
            Err(rate->Err_0)
        } else if first is Err {
            Err(first->Err_0)
        } else if other is Err {
            Err(other->Err_0)
        } else {
            Ok(
                InterestRateDerivativeAttributesView {
                    reference_rate: rate->Ok_0,
                    interest_rate_1: first->Ok_0,
                    notional_currency_2: text_of(elem.find_child("OtherNtnlCcy"@)),
                    interest_rate_2: other->Ok_0,
                },
            )
        }
    }

    /// Decode an `Intrst` element.
    fn from_xml(elem: &Element) -> (r: Result<Self, XmlError>) {
        Ok(
            InterestRateDerivativeAttributes {
                reference_rate: FloatingRate::from_xml(elem.get_child("IntrstRate")?)?,
                interest_rate_1: InterestRate::from_xml_option(elem.find_child("FirstLegIntrstRate"))?,
                notional_currency_2: owned(text_or_none(elem.find_child("OtherNtnlCcy"))),
                interest_rate_2: InterestRate::from_xml_option(elem.find_child("OthrLegIntrstRate"))?,
            },
        )
    }
}

impl FromXml for FxDerivativeAttributes {
    open spec fn decode(elem: ElementView) -> Result<FxDerivativeAttributesView, XmlErrorView> {
        let fx_type = decode_option::<FxType>(elem.find_child("FxTp"@));
        if fx_type is Err {
            Err(fx_type->Err_0)
        } else {
            Ok(
                FxDerivativeAttributesView {
                    notional_currency_2: text_of(elem.find_child("OthrNtnlCcy"@)),
                    fx_type: fx_type->Ok_0,
                },
            )
        }
    }

    /// Decode an `FX` element.
    fn from_xml(elem: &Element) -> (r: Result<Self, XmlError>) {
        Ok(
            FxDerivativeAttributes {
                notional_currency_2: owned(text_or_none(elem.find_child("OthrNtnlCcy"))),
                fx_type: FxType::from_xml_option(elem.find_child("FxTp"))?,
            },
        )
    }
}

impl FromXml for UnderlyingSingle {
    open spec fn decode(elem: ElementView) -> Result<UnderlyingSingleView, XmlErrorView> {
        match elem.find_first_child() {
            Some(child) => if child.name == "ISIN"@ {
                Ok(UnderlyingSingleView::Isin(child.text))
            } else if child.name == "LEI"@ {
                Ok(UnderlyingSingleView::Lei(child.text))
            } else if child.name == "Indx"@ {
                match Index::decode(child) {
                    Ok(index) => Ok(UnderlyingSingleView::Index(index)),
                    Err(x) => Err(x),
                }
            } else {
                Err(XmlErrorView::EnumParse(child.name))
            },
            None => Err(XmlErrorView::ElementNotFound),
        }
    }

    /// Decode a single underlying from the first child of the element: an
    /// `ISIN`, an `LEI` or an `Indx`. Any other first child is an error that
    /// holds its tag name.
    fn from_xml(elem: &Element) -> (r: Result<Self, XmlError>) {
        if let Some(child) = elem.find_first_child() {
            if str_eq(child.name(), "ISIN") {
                Ok(UnderlyingSingle::Isin(child.text().to_owned()))
            } else if str_eq(child.name(), "LEI") {
                Ok(UnderlyingSingle::Lei(child.text().to_owned()))
            } else if str_eq(child.name(), "Indx") {
                Ok(UnderlyingSingle::Index(Index::from_xml(child)?))
            } else {
                Err(XmlError::EnumParse(child.name().to_owned()))
            }
        } else {
            Err(XmlError::ElementNotFound)
        }
    }
}

/// A basket after the children from index `from` on have been added to it:
/// each `ISIN` and each `LEI` goes to its list, and any other child is a fault.
pub open spec fn basket_from(
    children: Seq<ElementView>,
    from: int,
    basket: UnderlyingBasketView,
) -> Result<UnderlyingBasketView, XmlErrorView>
    decreases children.len() - from,
{
    if 0 <= from < children.len() {
        let child = children[from];
        if child.name == "ISIN"@ {
            basket_from(
                children,
                from + 1,
                UnderlyingBasketView { isin: basket.isin.push(child.text), ..basket },
            )
        } else if child.name == "LEI"@ {
            basket_from(
                children,
                from + 1,
                UnderlyingBasketView { issuer_lei: basket.issuer_lei.push(child.text), ..basket },
            )
        } else {
            Err(XmlErrorView::UnexpectedElement)
        }
    } else {
        Ok(basket)
    }
}

/// One step of [`basket_from`], spelled out.
pub proof fn lemma_basket_step(children: Seq<ElementView>, from: int, basket: UnderlyingBasketView)
    requires
        0 <= from < children.len(),
    ensures
        basket_from(children, from, basket) == if children[from].name == "ISIN"@ {
            basket_from(
                children,
                from + 1,
                UnderlyingBasketView { isin: basket.isin.push(children[from].text), ..basket },
            )
        } else if children[from].name == "LEI"@ {
            basket_from(
                children,
                from + 1,
                UnderlyingBasketView {
                    issuer_lei: basket.issuer_lei.push(children[from].text),
                    ..basket
                },
            )
        } else {
            Err(XmlErrorView::UnexpectedElement)
        },
{
}

impl FromXml for UnderlyingBasket {
    open spec fn decode(elem: ElementView) -> Result<UnderlyingBasketView, XmlErrorView> {
        basket_from(
            elem.children,
            0,
            UnderlyingBasketView { isin: Seq::empty(), issuer_lei: Seq::empty() },
        )
    }

    /// Decode a `Bskt` element: the ISINs and the LEIs among its children, each
    /// list in document order.
    fn from_xml(elem: &Element) -> (r: Result<Self, XmlError>) {
        let mut isin: Vec<String> = Vec::new();
        let mut issuer_lei: Vec<String> = Vec::new();
        let children = elem.iter_children();
        let ghost kids = elem.deep_view().children;
        let ghost goal = Self::decode(elem.deep_view());
        assert(isin.deep_view() =~= Seq::empty());
        assert(issuer_lei.deep_view() =~= Seq::empty());
        let mut i: usize = 0;
        while i < children.len()
            invariant
                i <= children.len(),
                children.deep_view() == kids,
                goal == Self::decode(elem.deep_view()),
                basket_from(
                    kids,
                    i as int,
                    UnderlyingBasketView { isin: isin.deep_view(), issuer_lei: issuer_lei.deep_view() },
                ) == goal,
            decreases children.len() - i,
        {
            let c = &children[i];
            let ghost before = UnderlyingBasketView {
                isin: isin.deep_view(),
                issuer_lei: issuer_lei.deep_view(),
            };
            assert(kids[i as int] == c.deep_view());
            proof {
                lemma_basket_step(kids, i as int, before);
            }
            if str_eq(c.name(), "ISIN") {
                isin.push(c.text().to_owned());
                assert(isin.deep_view() =~= before.isin.push(c.deep_view().text));
            } else if str_eq(c.name(), "LEI") {
                issuer_lei.push(c.text().to_owned());
                assert(issuer_lei.deep_view() =~= before.issuer_lei.push(c.deep_view().text));
            } else {
                return Err(XmlError::UnexpectedElement);
            }
            i += 1;
        }
        Ok(UnderlyingBasket { isin, issuer_lei })
    }
}

impl FromXml for DerivativeUnderlying {
    open spec fn decode(elem: ElementView) -> Result<DerivativeUnderlyingView, XmlErrorView> {
        match elem.find_first_child() {
            Some(child) => if child.name == "Sngl"@ {
                match UnderlyingSingle::decode(child) {
                    Ok(single) => Ok(DerivativeUnderlyingView::Single(single)),
                    Err(x) => Err(x),
                }
            } else if child.name == "Bskt"@ {
                match UnderlyingBasket::decode(child) {
                    Ok(basket) => Ok(DerivativeUnderlyingView::Basket(basket)),
                    Err(x) => Err(x),
                }
            } else {
                Err(XmlErrorView::UnexpectedElement)
            },
            None => Err(XmlErrorView::ElementNotFound),
        }
    }

    /// Decode an `UndrlygInstrm` element from its first child: a `Sngl` or a
    /// `Bskt`.
    fn from_xml(elem: &Element) -> (r: Result<Self, XmlError>) {
        if let Some(child) = elem.find_first_child() {
            if str_eq(child.name(), "Sngl") {
                Ok(DerivativeUnderlying::Single(UnderlyingSingle::from_xml(child)?))
            } else if str_eq(child.name(), "Bskt") {
                Ok(DerivativeUnderlying::Basket(UnderlyingBasket::from_xml(child)?))
            } else {
                Err(XmlError::UnexpectedElement)
            }
        } else {
            Err(XmlError::ElementNotFound)
        }
    }
}

/// The attributes after one more child has been read into them.
pub open spec fn asset_class_with(
    attrs: AssetClassSpecificAttributesView,
    child: ElementView,
) -> Result<AssetClassSpecificAttributesView, XmlErrorView> {
    if child.name == "Cmmdty"@ {
        match CommodityDerivativeAttributes::decode(child) {
            Ok(v) => Ok(AssetClassSpecificAttributesView { commodity_attributes: Some(v), ..attrs }),
            Err(x) => Err(x),
        }
    } else if child.name == "Intrst"@ {
        match InterestRateDerivativeAttributes::decode(child) {
            Ok(v) => Ok(AssetClassSpecificAttributesView { ir_attributes: Some(v), ..attrs }),
            Err(x) => Err(x),
        }
    } else if child.name == "FX"@ {
        match FxDerivativeAttributes::decode(child) {
            Ok(v) => Ok(AssetClassSpecificAttributesView { fx_attributes: Some(v), ..attrs }),
            Err(x) => Err(x),
        }
    } else {
        Err(XmlErrorView::UnexpectedElement)
    }
}

/// The attributes after the children from index `from` on have been read into
/// them, one after the other.
pub open spec fn asset_class_from(
    children: Seq<ElementView>,
    from: int,
    attrs: AssetClassSpecificAttributesView,
) -> Result<AssetClassSpecificAttributesView, XmlErrorView>
    decreases children.len() - from,
{
    if 0 <= from < children.len() {
        match asset_class_with(attrs, children[from]) {
            Ok(next) => asset_class_from(children, from + 1, next),
            Err(x) => Err(x),
        }
    } else {
        Ok(attrs)
    }
}

/// One step of [`asset_class_from`], spelled out.
pub proof fn lemma_asset_class_step(
    children: Seq<ElementView>,
    from: int,
    attrs: AssetClassSpecificAttributesView,
)
    requires
        0 <= from < children.len(),
    ensures
        asset_class_from(children, from, attrs) == match asset_class_with(attrs, children[from]) {
            Ok(next) => asset_class_from(children, from + 1, next),
            Err(x) => Err(x),
        },
{
}

impl FromXml for AssetClassSpecificAttributes {
    open spec fn decode(elem: ElementView) -> Result<AssetClassSpecificAttributesView, XmlErrorView> {
        asset_class_from(
            elem.children,
            0,
            AssetClassSpecificAttributesView {
                commodity_attributes: None,
                ir_attributes: None,
                fx_attributes: None,
            },
        )
    }

    /// Decode an `AsstClssSpcfcAttrbts` element: each child is read into the
    /// attribute that its tag names, a later one replacing an earlier one, and a
    /// child with any other tag is an error.
    fn from_xml(elem: &Element) -> (r: Result<Self, XmlError>) {
        let mut attrs = AssetClassSpecificAttributes {
            commodity_attributes: None,
            ir_attributes: None,
            fx_attributes: None,
        };
        let children = elem.iter_children();
        let ghost kids = elem.deep_view().children;
        let ghost goal = Self::decode(elem.deep_view());
        let mut i: usize = 0;
        while i < children.len()
            invariant
                i <= children.len(),
                children.deep_view() == kids,
                goal == Self::decode(elem.deep_view()),
                asset_class_from(kids, i as int, attrs.deep_view()) == goal,
            decreases children.len() - i,
        {
            let c = &children[i];
            assert(kids[i as int] == c.deep_view());
            proof {
                lemma_asset_class_step(kids, i as int, attrs.deep_view());
            }
            if str_eq(c.name(), "Cmmdty") {
                attrs.commodity_attributes = Some(CommodityDerivativeAttributes::from_xml(c)?);
            } else if str_eq(c.name(), "Intrst") {
                attrs.ir_attributes = Some(InterestRateDerivativeAttributes::from_xml(c)?);
            } else if str_eq(c.name(), "FX") {
                attrs.fx_attributes = Some(FxDerivativeAttributes::from_xml(c)?);
            } else {
                return Err(XmlError::UnexpectedElement);
            }
            i += 1;
        }
        Ok(attrs)
    }
}

/// The attributes after one more child has been read into them.
pub open spec fn derivative_with(attrs: DerivativeAttributesView, child: ElementView) -> Result<
    DerivativeAttributesView,
    XmlErrorView,
> {
    if child.name == "XpryDt"@ {
        match whole_date_of(child.text) {
            Ok(v) => Ok(DerivativeAttributesView { expiry_date: Some(v), ..attrs }),
            Err(x) => Err(x),
        }
    } else if child.name == "PricMltplr"@ {
        match Decimal::of_text(child.text) {
            Ok(v) => Ok(DerivativeAttributesView { price_multiplier: Some(v), ..attrs }),
            Err(x) => Err(x),
        }
    } else if child.name == "UndrlygInstrm"@ {
        match DerivativeUnderlying::decode(child) {
            Ok(v) => Ok(DerivativeAttributesView { underlying: Some(v), ..attrs }),
            Err(x) => Err(x),
        }
    } else if child.name == "OptnTp"@ {
        match coded_element::<OptionType>(child) {
            Ok(v) => Ok(DerivativeAttributesView { option_type: Some(v), ..attrs }),
            Err(x) => Err(x),
        }
    } else if child.name == "StrkPric"@ {
        match StrikePrice::decode(child) {
            Ok(v) => Ok(DerivativeAttributesView { strike_price: Some(v), ..attrs }),
            Err(x) => Err(x),
        }
    } else if child.name == "OptnExrcStyle"@ {
        match coded_element::<OptionExerciseStyle>(child) {
            Ok(v) => Ok(DerivativeAttributesView { option_exercise_style: Some(v), ..attrs }),
            Err(x) => Err(x),
        }
    } else if child.name == "DlvryTp"@ {
        match coded_element::<DeliveryType>(child) {
            Ok(v) => Ok(DerivativeAttributesView { delivery_type: Some(v), ..attrs }),
            Err(x) => Err(x),
        }
    } else if child.name == "AsstClssSpcfcAttrbts"@ {
        match AssetClassSpecificAttributes::decode(child) {
            Ok(v) => Ok(
                DerivativeAttributesView { asset_class_specific_attributes: Some(v), ..attrs },
            ),
            Err(x) => Err(x),
        }
    } else {
        Err(XmlErrorView::UnexpectedElement)
    }
}

/// The attributes after the children from index `from` on have been read into
/// them, one after the other.
pub open spec fn derivative_from(
    children: Seq<ElementView>,
    from: int,
    attrs: DerivativeAttributesView,
) -> Result<DerivativeAttributesView, XmlErrorView>
    decreases children.len() - from,
{
    if 0 <= from < children.len() {
        match derivative_with(attrs, children[from]) {
            Ok(next) => derivative_from(children, from + 1, next),
            Err(x) => Err(x),
        }
    } else {
        Ok(attrs)
    }
}

/// Derivative attributes of which nothing is known yet.
pub open spec fn no_derivative_attributes() -> DerivativeAttributesView {
    DerivativeAttributesView {
        expiry_date: None,
        price_multiplier: None,
        underlying: None,
        option_type: None,
        strike_price: None,
        option_exercise_style: None,
        delivery_type: None,
        asset_class_specific_attributes: None,
    }
}

impl DerivativeAttributes {
    /// Read one child of a `DerivInstrmAttrbts` element into the attribute that
    /// its tag names.
    fn read_child(&mut self, c: &Element) -> (r: Result<(), XmlError>)
        ensures
            match r {
                Ok(_) => derivative_with(old(self).deep_view(), c.deep_view()) == Ok::<
                    DerivativeAttributesView,
                    XmlErrorView,
                >(final(self).deep_view()),
                Err(x) => derivative_with(old(self).deep_view(), c.deep_view()) == Err::<
                    DerivativeAttributesView,
                    XmlErrorView,
                >(x.deep_view()),
            },
    {
        if str_eq(c.name(), "XpryDt") {
            self.expiry_date = Some(date_from_text(c.text())?);
        } else if str_eq(c.name(), "PricMltplr") {
            self.price_multiplier = Some(Decimal::from_text(c.text())?);
        } else if str_eq(c.name(), "UndrlygInstrm") {
            self.underlying = Some(DerivativeUnderlying::from_xml(c)?);
        } else if str_eq(c.name(), "OptnTp") {
            self.option_type = Some(coded_from_text::<OptionType>(c.text())?);
        } else if str_eq(c.name(), "StrkPric") {
            self.strike_price = Some(StrikePrice::from_xml(c)?);
        } else if str_eq(c.name(), "OptnExrcStyle") {
            self.option_exercise_style = Some(coded_from_text::<OptionExerciseStyle>(c.text())?);
        } else if str_eq(c.name(), "DlvryTp") {
            self.delivery_type = Some(coded_from_text::<DeliveryType>(c.text())?);
        } else if str_eq(c.name(), "AsstClssSpcfcAttrbts") {
            self.asset_class_specific_attributes = Some(AssetClassSpecificAttributes::from_xml(c)?);
        } else {
            return Err(XmlError::UnexpectedElement);
        }
        Ok(())
    }
}

/// One step of [`derivative_from`], spelled out.
pub proof fn lemma_derivative_step(
    children: Seq<ElementView>,
    from: int,
    attrs: DerivativeAttributesView,
)
    requires
        0 <= from < children.len(),
    ensures
        derivative_from(children, from, attrs) == match derivative_with(attrs, children[from]) {
            Ok(next) => derivative_from(children, from + 1, next),
            Err(x) => Err(x),
        },
{
}

impl FromXml for DerivativeAttributes {
    open spec fn decode(elem: ElementView) -> Result<DerivativeAttributesView, XmlErrorView> {
        derivative_from(elem.children, 0, no_derivative_attributes())
    }

    /// Decode a `DerivInstrmAttrbts` element: each child is read into the
    /// attribute that its tag names, a later one replacing an earlier one, and a
    /// child with any other tag is an error.
    fn from_xml(elem: &Element) -> (r: Result<Self, XmlError>) {
        let mut attrs = DerivativeAttributes {
            expiry_date: None,
            price_multiplier: None,
            underlying: None,
            option_type: None,
            strike_price: None,
            option_exercise_style: None,
            delivery_type: None,
            asset_class_specific_attributes: None,
        };
        let children = elem.iter_children();
        let ghost kids = elem.deep_view().children;
        let ghost goal = Self::decode(elem.deep_view());
        let mut i: usize = 0;
        while i < children.len()
            invariant
                i <= children.len(),
                children.deep_view() == kids,
                goal == Self::decode(elem.deep_view()),
                derivative_from(kids, i as int, attrs.deep_view()) == goal,
            decreases children.len() - i,
        {
            let c = &children[i];
            assert(kids[i as int] == c.deep_view());
            proof {
                lemma_derivative_step(kids, i as int, attrs.deep_view());
            }
            attrs.read_child(c)?;
            i += 1;
        }
        Ok(attrs)
    }
}

impl FromXml for ReferenceData {
    open spec fn decode(elem: ElementView) -> Result<ReferenceDataView, XmlErrorView> {
        let general = elem.get_child("FinInstrmGnlAttrbts"@);
        let isin = general->Ok_0.child_text("Id"@);
        let full_name = general->Ok_0.child_text("FullNm"@);
        let cfi = general->Ok_0.child_text("ClssfctnTp"@);
        let indicator = general->Ok_0.child_text("CmmdtyDerivInd"@);
        let commodities = bool::of_text(indicator->Ok_0);
        let issuer = elem.child_text("Issr"@);
        let fisn = general->Ok_0.child_text("ShrtNm"@);
        let venue_elem = elem.get_child("TradgVnRltdAttrbts"@);
        let venue = TradingVenueAttributes::decode(venue_elem->Ok_0);
        let currency = general->Ok_0.child_text("NtnlCcy"@);
        let technical = decode_option::<TechnicalAttributes>(elem.find_child("TechAttrbts"@));
        let debt = decode_option::<DebtAttributes>(elem.find_child("DebtInstrmAttrbts"@));
        let derivative = decode_option::<DerivativeAttributes>(elem.find_child("DerivInstrmAttrbts"@));
        if general is Err {
            Err(general->Err_0)
        } else if isin is Err {
            Err(isin->Err_0)
        } else if full_name is Err {
            Err(full_name->Err_0)
        } else if cfi is Err {
            Err(cfi->Err_0)
        } else if indicator is Err {
            Err(indicator->Err_0)
        } else if commodities is Err {
            Err(commodities->Err_0)
        } else if issuer is Err {
            Err(issuer->Err_0)
        } else if fisn is Err {
            Err(fisn->Err_0)
        } else if venue_elem is Err {
            Err(venue_elem->Err_0)
        } else if venue is Err {
            Err(venue->Err_0)
        } else if currency is Err {
            Err(currency->Err_0)
        } else if technical is Err {
            Err(technical->Err_0)
        } else if debt is Err {
            Err(debt->Err_0)
        } else if derivative is Err {
            Err(derivative->Err_0)
        } else {
            Ok(
                ReferenceDataView {
                    isin: isin->Ok_0,
                    full_name: full_name->Ok_0,
                    cfi: cfi->Ok_0,
                    is_commodities_derivative: commodities->Ok_0,
                    issuer_lei: issuer->Ok_0,
                    fisn: fisn->Ok_0,
                    trading_venue_attrs: venue->Ok_0,
                    notional_currency: currency->Ok_0,
                    technical_attributes: technical->Ok_0,
                    debt_attributes: debt->Ok_0,
                    derivative_attributes: derivative->Ok_0,
                },
            )
        }
    }

    /// Decode the reference data of one instrument from a `RefData` element or
    /// from a record of the same shape.
    fn from_xml(elem: &Element) -> (r: Result<Self, XmlError>) {
        let gen_attrs = elem.get_child("FinInstrmGnlAttrbts")?;
        Ok(
            ReferenceData {
                isin: gen_attrs.child_text("Id")?.to_owned(),
                full_name: gen_attrs.child_text("FullNm")?.to_owned(),
                cfi: gen_attrs.child_text("ClssfctnTp")?.to_owned(),
                is_commodities_derivative: bool::from_text(gen_attrs.child_text("CmmdtyDerivInd")?)?,
                issuer_lei: elem.child_text("Issr")?.to_owned(),
                fisn: gen_attrs.child_text("ShrtNm")?.to_owned(),
                trading_venue_attrs: TradingVenueAttributes::from_xml(
                    elem.get_child("TradgVnRltdAttrbts")?,
                )?,
                notional_currency: gen_attrs.child_text("NtnlCcy")?.to_owned(),
                technical_attributes: TechnicalAttributes::from_xml_option(
                    elem.find_child("TechAttrbts"),
                )?,
                debt_attributes: DebtAttributes::from_xml_option(elem.find_child("DebtInstrmAttrbts"))?,
                derivative_attributes: DerivativeAttributes::from_xml_option(
                    elem.find_child("DerivInstrmAttrbts"),
                )?,
            },
        )
    }
}

impl FromXml for NewRecord {
    open spec fn decode(elem: ElementView) -> Result<NewRecordView, XmlErrorView> {
        match ReferenceData::decode(elem) {
            Ok(data) => Ok(NewRecordView(data)),
            Err(x) => Err(x),
        }
    }

    /// Decode a `NewRcrd` element.
    fn from_xml(elem: &Element) -> (r: Result<Self, XmlError>) {
        Ok(NewRecord(ReferenceData::from_xml(elem)?))
    }
}

impl FromXml for ModifiedRecord {
    open spec fn decode(elem: ElementView) -> Result<ModifiedRecordView, XmlErrorView> {
        match ReferenceData::decode(elem) {
            Ok(data) => Ok(ModifiedRecordView(data)),
            Err(x) => Err(x),
        }
    }

    /// Decode a `ModfdRcrd` element.
    fn from_xml(elem: &Element) -> (r: Result<Self, XmlError>) {
        Ok(ModifiedRecord(ReferenceData::from_xml(elem)?))
    }
}

impl FromXml for TerminatedRecord {
    open spec fn decode(elem: ElementView) -> Result<TerminatedRecordView, XmlErrorView> {
        match ReferenceData::decode(elem) {
            Ok(data) => Ok(TerminatedRecordView(data)),
            Err(x) => Err(x),
        }
    }

    /// Decode a `TermntdRcrd` element.
    fn from_xml(elem: &Element) -> (r: Result<Self, XmlError>) {
        Ok(TerminatedRecord(ReferenceData::from_xml(elem)?))
    }
}

} // verus!
