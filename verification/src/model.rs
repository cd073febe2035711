//! The records that reference data is decoded into, each with its mathematical view.

use vstd::prelude::*;
use crate::categories::{
    DebtSeniority, DeliveryType, FinalPriceType, FxType, IndexCode, OptionExerciseStyle, OptionType,
    StrikePriceType, TermUnit, TransactionType,
};
use crate::product::BaseProduct;
use crate::scalar::{Date, Decimal, Timestamp};

verus! {

/// The term of an index or benchmark.
#[derive(Debug, Clone, Copy, PartialEq, Eq, Structural)]
pub struct Term {
    /// The number of days, weeks, months or years, as `unit` says.
    pub number: i32,
    /// The unit of time in which the term is expressed.
    pub unit: TermUnit,
}

impl DeepView for Term {
    type V = Term;

    open spec fn deep_view(&self) -> Term {
        *self
    }
}

/// The name of an index or benchmark.
#[derive(Debug, Clone, PartialEq, Eq)]
pub enum IndexName {
    /// One of the four-letter codes.
    Code(IndexCode),
    /// Any other name, as free text.
    Text(String),
}

/// Mathematical view of [`IndexName`].
pub ghost enum IndexNameView {
    Code(IndexCode),
    Text(Seq<char>),
}

impl DeepView for IndexName {
    type V = IndexNameView;

    open spec fn deep_view(&self) -> IndexNameView {
        match self {
            IndexName::Code(a) => IndexNameView::Code(a.deep_view()),
            IndexName::Text(a) => IndexNameView::Text(a.deep_view()),
        }
    }
}

/// The strike price of a derivative instrument.
#[derive(Debug, Clone, PartialEq, Eq)]
pub struct StrikePrice {
    /// How the price is expressed, or that there is none.
    pub price_type: StrikePriceType,
    /// The price, expressed as `price_type` says; absent where there is no price.
    pub price: Option<Decimal>,
    /// Whether the price is not available yet.
    pub pending: bool,
    /// The currency of the price, where it has one.
    pub currency: Option<String>,
}

/// Mathematical view of [`StrikePrice`].
pub ghost struct StrikePriceView {
    pub price_type: StrikePriceType,
    pub price: Option<Seq<char>>,
    pub pending: bool,
    pub currency: Option<Seq<char>>,
}

impl DeepView for StrikePrice {
    type V = StrikePriceView;

    open spec fn deep_view(&self) -> StrikePriceView {
        StrikePriceView {
            price_type: self.price_type.deep_view(),
            price: self.price.deep_view(),
            pending: self.pending.deep_view(),
            currency: self.currency.deep_view(),
        }
    }
}

/// An index or benchmark rate.
#[derive(Debug, Clone, PartialEq, Eq)]
pub struct FloatingRate {
    /// The name of the index or benchmark.
    pub name: Option<IndexName>,
    /// The term of the index or benchmark.
    pub term: Option<Term>,
}

/// Mathematical view of [`FloatingRate`].
pub ghost struct FloatingRateView {
    pub name: Option<IndexNameView>,
    pub term: Option<Term>,
}

impl DeepView for FloatingRate {
    type V = FloatingRateView;

    open spec fn deep_view(&self) -> FloatingRateView {
        FloatingRateView {
            name: self.name.deep_view(),
            term: self.term.deep_view(),
        }
    }
}

/// An index that underlies a derivative: a floating rate with an optional ISIN.
#[derive(Debug, Clone, PartialEq, Eq)]
pub struct Index {
    /// The ISIN of the index.
    pub isin: Option<String>,
    /// The rate that names the index.
    pub name: FloatingRate,
}

/// Mathematical view of [`Index`].
pub ghost struct IndexView {
    pub isin: Option<Seq<char>>,
    pub name: FloatingRateView,
}

impl DeepView for Index {
    type V = IndexView;

    open spec fn deep_view(&self) -> IndexView {
        IndexView {
            isin: self.isin.deep_view(),
            name: self.name.deep_view(),
        }
    }
}

/// Trading or admission to trading of an instrument on a trading venue.
#[derive(Debug, Clone, PartialEq, Eq)]
pub struct TradingVenueAttributes {
    /// The market identifier code of the venue.
    pub trading_venue: String,
    /// Whether the issuer has requested or approved the admission to trading.
    pub requested_admission: bool,
    /// When the issuer approved admission to trading.
    pub approval_date: Option<Timestamp>,
    /// When admission to trading was requested.
    pub request_date: Option<Timestamp>,
    /// When the instrument was admitted to trading or first traded.
    pub admission_or_first_trade_date: Option<Timestamp>,
    /// When the instrument ceases to be traded or admitted to trading.
    pub termination_date: Option<Timestamp>,
}

/// Mathematical view of [`TradingVenueAttributes`].
pub ghost struct TradingVenueAttributesView {
    pub trading_venue: Seq<char>,
    pub requested_admission: bool,
    pub approval_date: Option<Timestamp>,
    pub request_date: Option<Timestamp>,
    pub admission_or_first_trade_date: Option<Timestamp>,
    pub termination_date: Option<Timestamp>,
}

impl DeepView for TradingVenueAttributes {
    type V = TradingVenueAttributesView;

    open spec fn deep_view(&self) -> TradingVenueAttributesView {
        TradingVenueAttributesView {
            trading_venue: self.trading_venue.deep_view(),
            requested_admission: self.requested_admission.deep_view(),
            approval_date: self.approval_date.deep_view(),
            request_date: self.request_date.deep_view(),
            admission_or_first_trade_date: self.admission_or_first_trade_date.deep_view(),
            termination_date: self.termination_date.deep_view(),
        }
    }
}

/// The interest rate of a debt instrument or of a leg of a swap.
#[derive(Debug, Clone, PartialEq, Eq)]
pub enum InterestRate {
    /// A fixed rate, in percent.
    Fixed(Decimal),
    /// A floating rate: the benchmark, and the spread in basis points where one is given.
    Floating(FloatingRate, Option<i32>),
}

/// Mathematical view of [`InterestRate`].
pub ghost enum InterestRateView {
    Fixed(Seq<char>),
    Floating(FloatingRateView, Option<i32>),
}

impl DeepView for InterestRate {
    type V = InterestRateView;

    open spec fn deep_view(&self) -> InterestRateView {
        match self {
            InterestRate::Fixed(a) => InterestRateView::Fixed(a.deep_view()),
            InterestRate::Floating(a, b) => InterestRateView::Floating(a.deep_view(), b.deep_view()),
        }
    }
}

/// The period for which details on an instrument were published.
#[derive(Debug, Clone, PartialEq, Eq)]
pub struct PublicationPeriod {
    /// The first day of the period.
    pub from_date: Date,
    /// The last day of the period, where it has ended.
    pub to_date: Option<Date>,
}

/// Mathematical view of [`PublicationPeriod`].
pub ghost struct PublicationPeriodView {
    pub from_date: Date,
    pub to_date: Option<Date>,
}

impl DeepView for PublicationPeriod {
    type V = PublicationPeriodView;

    open spec fn deep_view(&self) -> PublicationPeriodView {
        PublicationPeriodView {
            from_date: self.from_date.deep_view(),
            to_date: self.to_date.deep_view(),
        }
    }
}

/// Attributes of the submission of an instrument's details.
#[derive(Debug, Clone, PartialEq, Eq)]
pub struct TechnicalAttributes {
    /// The relevant competent authority.
    pub relevant_competent_authority: Option<String>,
    /// The period for which the details were published.
    pub publication_period: Option<PublicationPeriod>,
    /// The venue that reported the record taken as the reference.
    pub relevant_trading_venue: Option<String>,
}

/// Mathematical view of [`TechnicalAttributes`].
pub ghost struct TechnicalAttributesView {
    pub relevant_competent_authority: Option<Seq<char>>,
    pub publication_period: Option<PublicationPeriodView>,
    pub relevant_trading_venue: Option<Seq<char>>,
}

impl DeepView for TechnicalAttributes {
    type V = TechnicalAttributesView;

    open spec fn deep_view(&self) -> TechnicalAttributesView {
        TechnicalAttributesView {
            relevant_competent_authority: self.relevant_competent_authority.deep_view(),
            publication_period: self.publication_period.deep_view(),
            relevant_trading_venue: self.relevant_trading_venue.deep_view(),
        }
    }
}

/// Reference data for bonds and other securitised debt.
#[derive(Debug, Clone, PartialEq, Eq)]
pub struct DebtAttributes {
    /// The total issued nominal amount, in the nominal currency.
    pub total_issued_amount: Decimal,
    /// The maturity date, for debt with a defined maturity.
    pub maturity_date: Option<Date>,
    /// The currency of the nominal value.
    pub nominal_currency: String,
    /// The nominal value of each traded unit, in the nominal currency.
    pub nominal_value_per_unit: Decimal,
    /// The interest rate.
    pub interest_rate: InterestRate,
    /// The seniority of the debt.
    pub seniority: Option<DebtSeniority>,
}

/// Mathematical view of [`DebtAttributes`].
pub ghost struct DebtAttributesView {
    pub total_issued_amount: Seq<char>,
    pub maturity_date: Option<Date>,
    pub nominal_currency: Seq<char>,
    pub nominal_value_per_unit: Seq<char>,
    pub interest_rate: InterestRateView,
    pub seniority: Option<DebtSeniority>,
}

impl DeepView for DebtAttributes {
    type V = DebtAttributesView;

    open spec fn deep_view(&self) -> DebtAttributesView {
        DebtAttributesView {
            total_issued_amount: self.total_issued_amount.deep_view(),
            maturity_date: self.maturity_date.deep_view(),
            nominal_currency: self.nominal_currency.deep_view(),
            nominal_value_per_unit: self.nominal_value_per_unit.deep_view(),
            interest_rate: self.interest_rate.deep_view(),
            seniority: self.seniority.deep_view(),
        }
    }
}

/// Additional reference data for a commodity derivative.
#[derive(Debug, Clone, PartialEq, Eq)]
pub struct CommodityDerivativeAttributes {
    /// The classification of the underlying commodity.
    pub product: BaseProduct,
    /// The transaction type.
    pub transaction_type: Option<TransactionType>,
    /// The final price type.
    pub final_price_type: Option<FinalPriceType>,
}

/// Mathematical view of [`CommodityDerivativeAttributes`].
pub ghost struct CommodityDerivativeAttributesView {
    pub product: BaseProduct,
    pub transaction_type: Option<TransactionType>,
    pub final_price_type: Option<FinalPriceType>,
}

impl DeepView for CommodityDerivativeAttributes {
    type V = CommodityDerivativeAttributesView;

    open spec fn deep_view(&self) -> CommodityDerivativeAttributesView {
        CommodityDerivativeAttributesView {
            product: self.product.deep_view(),
            transaction_type: self.transaction_type.deep_view(),
            final_price_type: self.final_price_type.deep_view(),
        }
    }
}

/// Additional reference data for an interest rate derivative.
#[derive(Debug, Clone, PartialEq, Eq)]
pub struct InterestRateDerivativeAttributes {
    /// The reference rate.
    pub reference_rate: FloatingRate,
    /// The interest rate of the first leg.
    pub interest_rate_1: Option<InterestRate>,
    /// The currency of the second leg.
    pub notional_currency_2: Option<String>,
    /// The interest rate of the second leg.
    pub interest_rate_2: Option<InterestRate>,
}

/// Mathematical view of [`InterestRateDerivativeAttributes`].
pub ghost struct InterestRateDerivativeAttributesView {
    pub reference_rate: FloatingRateView,
    pub interest_rate_1: Option<InterestRateView>,
    pub notional_currency_2: Option<Seq<char>>,
    pub interest_rate_2: Option<InterestRateView>,
}

impl DeepView for InterestRateDerivativeAttributes {
    type V = InterestRateDerivativeAttributesView;

    open spec fn deep_view(&self) -> InterestRateDerivativeAttributesView {
        InterestRateDerivativeAttributesView {
            reference_rate: self.reference_rate.deep_view(),
            interest_rate_1: self.interest_rate_1.deep_view(),
            notional_currency_2: self.notional_currency_2.deep_view(),
            interest_rate_2: self.interest_rate_2.deep_view(),
        }
    }
}

/// Additional reference data for a foreign exchange derivative.
#[derive(Debug, Clone, PartialEq, Eq)]
pub struct FxDerivativeAttributes {
    /// The second currency of the pair.
    pub notional_currency_2: Option<String>,
    /// The kind of currency pair.
    pub fx_type: Option<FxType>,
}

/// Mathematical view of [`FxDerivativeAttributes`].
pub ghost struct FxDerivativeAttributesView {
    pub notional_currency_2: Option<Seq<char>>,
    pub fx_type: Option<FxType>,
}

impl DeepView for FxDerivativeAttributes {
    type V = FxDerivativeAttributesView;

    open spec fn deep_view(&self) -> FxDerivativeAttributesView {
        FxDerivativeAttributesView {
            notional_currency_2: self.notional_currency_2.deep_view(),
            fx_type: self.fx_type.deep_view(),
        }
    }
}

/// A single asset that underlies a derivative.
#[derive(Debug, Clone, PartialEq, Eq)]
pub enum UnderlyingSingle {
    /// The ISIN of an instrument.
    Isin(String),
    /// An index.
    Index(Index),
    /// The LEI of an issuer.
    Lei(String),
}

/// Mathematical view of [`UnderlyingSingle`].
pub ghost enum UnderlyingSingleView {
    Isin(Seq<char>),
    Index(IndexView),
    Lei(Seq<char>),
}

impl DeepView for UnderlyingSingle {
    type V = UnderlyingSingleView;

    open spec fn deep_view(&self) -> UnderlyingSingleView {
        match self {
            UnderlyingSingle::Isin(a) => UnderlyingSingleView::Isin(a.deep_view()),
            UnderlyingSingle::Index(a) => UnderlyingSingleView::Index(a.deep_view()),
            UnderlyingSingle::Lei(a) => UnderlyingSingleView::Lei(a.deep_view()),
        }
    }
}

/// A basket of instruments or issuers that underlies a derivative.
#[derive(Debug, Clone, PartialEq, Eq)]
pub struct UnderlyingBasket {
    /// The ISINs of the instruments in the basket.
    pub isin: Vec<String>,
    /// The LEIs of the issuers in the basket.
    pub issuer_lei: Vec<String>,
}

/// Mathematical view of [`UnderlyingBasket`].
pub ghost struct UnderlyingBasketView {
    pub isin: Seq<Seq<char>>,
    pub issuer_lei: Seq<Seq<char>>,
}

impl DeepView for UnderlyingBasket {
    type V = UnderlyingBasketView;

    open spec fn deep_view(&self) -> UnderlyingBasketView {
        UnderlyingBasketView {
            isin: self.isin.deep_view(),
            issuer_lei: self.issuer_lei.deep_view(),
        }
    }
}

/// What underlies a derivative: a single asset or a basket.
#[derive(Debug, Clone, PartialEq, Eq)]
pub enum DerivativeUnderlying {
    /// A single instrument, index or issuer.
    Single(UnderlyingSingle),
    /// A basket of instruments or issuers.
    Basket(UnderlyingBasket),
}

/// Mathematical view of [`DerivativeUnderlying`].
pub ghost enum DerivativeUnderlyingView {
    Single(UnderlyingSingleView),
    Basket(UnderlyingBasketView),
}

impl DeepView for DerivativeUnderlying {
    type V = DerivativeUnderlyingView;

    open spec fn deep_view(&self) -> DerivativeUnderlyingView {
        match self {
            DerivativeUnderlying::Single(a) => DerivativeUnderlyingView::Single(a.deep_view()),
            DerivativeUnderlying::Basket(a) => DerivativeUnderlyingView::Basket(a.deep_view()),
        }
    }
}

/// Attributes of a derivative that depend on its asset class.
#[derive(Debug, Clone, PartialEq, Eq, Default)]
pub struct AssetClassSpecificAttributes {
    /// Attributes of a commodity derivative.
    pub commodity_attributes: Option<CommodityDerivativeAttributes>,
    /// Attributes of an interest rate derivative.
    pub ir_attributes: Option<InterestRateDerivativeAttributes>,
    /// Attributes of a foreign exchange derivative.
    pub fx_attributes: Option<FxDerivativeAttributes>,
}

/// Mathematical view of [`AssetClassSpecificAttributes`].
pub ghost struct AssetClassSpecificAttributesView {
    pub commodity_attributes: Option<CommodityDerivativeAttributesView>,
    pub ir_attributes: Option<InterestRateDerivativeAttributesView>,
    pub fx_attributes: Option<FxDerivativeAttributesView>,
}

impl DeepView for AssetClassSpecificAttributes {
    type V = AssetClassSpecificAttributesView;

    open spec fn deep_view(&self) -> AssetClassSpecificAttributesView {
        AssetClassSpecificAttributesView {
            commodity_attributes: self.commodity_attributes.deep_view(),
            ir_attributes: self.ir_attributes.deep_view(),
            fx_attributes: self.fx_attributes.deep_view(),
        }
    }
}

/// Reference data for a derivative instrument.
#[derive(Debug, Clone, PartialEq, Eq, Default)]
pub struct DerivativeAttributes {
    /// The expiry date.
    pub expiry_date: Option<Date>,
    /// The number of units of the underlying that one contract stands for.
    pub price_multiplier: Option<Decimal>,
    /// The underlying asset or basket.
    pub underlying: Option<DerivativeUnderlying>,
    /// For an option, whether it is a put or a call.
    pub option_type: Option<OptionType>,
    /// The strike price.
    pub strike_price: Option<StrikePrice>,
    /// For an option, when it may be exercised.
    pub option_exercise_style: Option<OptionExerciseStyle>,
    /// How the instrument is settled.
    pub delivery_type: Option<DeliveryType>,
    /// Attributes that depend on the asset class.
    pub asset_class_specific_attributes: Option<AssetClassSpecificAttributes>,
}

/// Mathematical view of [`DerivativeAttributes`].
pub ghost struct DerivativeAttributesView {
    pub expiry_date: Option<Date>,
    pub price_multiplier: Option<Seq<char>>,
    pub underlying: Option<DerivativeUnderlyingView>,
    pub option_type: Option<OptionType>,
    pub strike_price: Option<StrikePriceView>,
    pub option_exercise_style: Option<OptionExerciseStyle>,
    pub delivery_type: Option<DeliveryType>,
    pub asset_class_specific_attributes: Option<AssetClassSpecificAttributesView>,
}

impl DeepView for DerivativeAttributes {
    type V = DerivativeAttributesView;

    open spec fn deep_view(&self) -> DerivativeAttributesView {
        DerivativeAttributesView {
            expiry_date: self.expiry_date.deep_view(),
            price_multiplier: self.price_multiplier.deep_view(),
            underlying: self.underlying.deep_view(),
            option_type: self.option_type.deep_view(),
            strike_price: self.strike_price.deep_view(),
            option_exercise_style: self.option_exercise_style.deep_view(),
            delivery_type: self.delivery_type.deep_view(),
            asset_class_specific_attributes: self.asset_class_specific_attributes.deep_view(),
        }
    }
}

/// Reference data for one financial instrument on one trading venue.
#[derive(Debug, Clone, PartialEq, Eq)]
pub struct ReferenceData {
    /// The ISIN of the instrument.
    pub isin: String,
    /// The full name of the instrument.
    pub full_name: String,
    /// The classification (CFI) code of the instrument.
    pub cfi: String,
    /// Whether the instrument is a commodities derivative.
    pub is_commodities_derivative: bool,
    /// The LEI of the issuer.
    pub issuer_lei: String,
    /// The short name (FISN) of the instrument.
    pub fisn: String,
    /// Trading or admission to trading on the venue.
    pub trading_venue_attrs: TradingVenueAttributes,
    /// The currency in which the notional is denominated.
    pub notional_currency: String,
    /// Attributes of the submission.
    pub technical_attributes: Option<TechnicalAttributes>,
    /// For a debt instrument, its debt attributes.
    pub debt_attributes: Option<DebtAttributes>,
    /// For a derivative, its derivative attributes.
    pub derivative_attributes: Option<DerivativeAttributes>,
}

/// Mathematical view of [`ReferenceData`].
pub ghost struct ReferenceDataView {
    pub isin: Seq<char>,
    pub full_name: Seq<char>,
    pub cfi: Seq<char>,
    pub is_commodities_derivative: bool,
    pub issuer_lei: Seq<char>,
    pub fisn: Seq<char>,
    pub trading_venue_attrs: TradingVenueAttributesView,
    pub notional_currency: Seq<char>,
    pub technical_attributes: Option<TechnicalAttributesView>,
    pub debt_attributes: Option<DebtAttributesView>,
    pub derivative_attributes: Option<DerivativeAttributesView>,
}

impl DeepView for ReferenceData {
    type V = ReferenceDataView;

    open spec fn deep_view(&self) -> ReferenceDataView {
        ReferenceDataView {
            isin: self.isin.deep_view(),
            full_name: self.full_name.deep_view(),
            cfi: self.cfi.deep_view(),
            is_commodities_derivative: self.is_commodities_derivative.deep_view(),
            issuer_lei: self.issuer_lei.deep_view(),
            fisn: self.fisn.deep_view(),
            trading_venue_attrs: self.trading_venue_attrs.deep_view(),
            notional_currency: self.notional_currency.deep_view(),
            technical_attributes: self.technical_attributes.deep_view(),
            debt_attributes: self.debt_attributes.deep_view(),
            derivative_attributes: self.derivative_attributes.deep_view(),
        }
    }
}

/// Reference data for a newly added instrument.
#[derive(Debug, Clone, PartialEq, Eq)]
pub struct NewRecord(pub ReferenceData);

/// Mathematical view of [`NewRecord`].
pub ghost struct NewRecordView(pub ReferenceDataView);

impl DeepView for NewRecord {
    type V = NewRecordView;

    open spec fn deep_view(&self) -> NewRecordView {
        NewRecordView(self.0.deep_view())
    }
}

/// Modified reference data for an instrument.
#[derive(Debug, Clone, PartialEq, Eq)]
pub struct ModifiedRecord(pub ReferenceData);

/// Mathematical view of [`ModifiedRecord`].
pub ghost struct ModifiedRecordView(pub ReferenceDataView);

impl DeepView for ModifiedRecord {
    type V = ModifiedRecordView;

    open spec fn deep_view(&self) -> ModifiedRecordView {
        ModifiedRecordView(self.0.deep_view())
    }
}

/// Reference data for an instrument that has ceased to be traded.
#[derive(Debug, Clone, PartialEq, Eq)]
pub struct TerminatedRecord(pub ReferenceData);

/// Mathematical view of [`TerminatedRecord`].
pub ghost struct TerminatedRecordView(pub ReferenceDataView);

impl DeepView for TerminatedRecord {
    type V = TerminatedRecordView;

    open spec fn deep_view(&self) -> TerminatedRecordView {
        TerminatedRecordView(self.0.deep_view())
    }
}

} // verus!
