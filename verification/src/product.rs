//! The classification of commodity derivatives by product codes: a base
//! product, its sub-product and the further sub-product, each written as a
//! four-letter code.

use vstd::prelude::*;
use crate::coded::{Coded, lemma_code_of_value, lemma_value_of_code, lemma_value_of_parsed, value_of};
use crate::error::ProductError;
use crate::text::str_eq;

verus! {

/// The further sub-product that a sub-product must have: without a code it is
/// missing, with a code outside the table it is wrong.
pub open spec fn required_further<F: Coded>(further: Option<Seq<char>>) -> Result<F, ProductError> {
    match further {
        None => Err(ProductError::NoSubProduct),
        Some(code) => match value_of::<F>(code) {
            Some(f) => Ok(f),
            None => Err(ProductError::BadSubProduct),
        },
    }
}

/// The further sub-product that a sub-product may have: none without a code,
/// and with a code outside the table it is wrong.
pub open spec fn optional_further<F: Coded>(further: Option<Seq<char>>) -> Result<Option<F>, ProductError> {
    match further {
        None => Ok(None),
        Some(code) => match value_of::<F>(code) {
            Some(f) => Ok(Some(f)),
            None => Err(ProductError::BadSubProduct),
        },
    }
}

/// A sub-product that takes no further code: any further code is wrong.
pub open spec fn no_further<T>(sub_product: T, further: Option<Seq<char>>) -> Result<T, ProductError> {
    if further is Some {
        Err(ProductError::BadSubProduct)
    } else {
        Ok(sub_product)
    }
}

/// The sub-product that a base product must have: without a code it is missing.
pub open spec fn required_sub<S: SubProduct>(
    sub_product: Option<Seq<char>>,
    further: Option<Seq<char>>,
) -> Result<S, ProductError> {
    match sub_product {
        None => Err(ProductError::NoSubProduct),
        Some(code) => S::decode(code, further),
    }
}

/// A base product that stands alone: any sub-product code is wrong.
pub open spec fn no_sub<T>(product: T, sub_product: Option<Seq<char>>) -> Result<T, ProductError> {
    if sub_product is Some {
        Err(ProductError::BadProduct)
    } else {
        Ok(product)
    }
}

/// Check that a further code is given and hand it to `func`, which makes the
/// sub-product from it.
pub fn with_fsp_or_err<T, F: Fn(&str) -> Result<T, ProductError>>(fsp: Option<&str>, func: F) -> (r: Result<T, ProductError>)
    requires
        fsp is Some ==> call_requires(func, (fsp->0,)),
    ensures
        match fsp {
            Some(code) => call_ensures(func, (code,), r),
            None => r == Err::<T, ProductError>(ProductError::NoSubProduct),
        },
{
    match fsp {
        Some(code) => func(code),
        None => Err(ProductError::NoSubProduct),
    }
}

/// Check that no further code is given for a sub-product that takes none, and
/// return the sub-product.
pub fn without_fsp_or_err<T>(sp: T, fsp: Option<&str>) -> (r: Result<T, ProductError>)
    ensures
        r == no_further(sp, fsp.deep_view()),
{
    if fsp.is_some() {
        Err(ProductError::BadSubProduct)
    } else {
        Ok(sp)
    }
}

/// Read the further sub-product from its code where one is given.
pub fn optional_fsp<T: Coded>(fsp: Option<&str>) -> (r: Result<Option<T>, ProductError>)
    ensures
        r == optional_further::<T>(fsp.deep_view()),
{
    match fsp {
        Some(code) => {
            let parsed = T::from_code(code);
            proof {
                lemma_value_of_parsed(code@, parsed);
            }
            match parsed {
                Some(f) => Ok(Some(f)),
                None => Err(ProductError::BadSubProduct),
            }
        },
        None => Ok(None),
    }
}

/// Check that a sub-product code is given and decode it with the further code.
fn with_sub_or_err<S: SubProduct>(sub_prod: Option<&str>, further_sub_prod: Option<&str>) -> (r: Result<S, ProductError>)
    ensures
        r == required_sub::<S>(sub_prod.deep_view(), further_sub_prod.deep_view()),
{
    match sub_prod {
        Some(code) => S::try_from_codes(code, further_sub_prod),
        None => Err(ProductError::NoSubProduct),
    }
}

/// Check that no sub-product code is given for a base product that stands alone.
fn without_sub_or_err(product: BaseProduct, sub_prod: Option<&str>) -> (r: Result<BaseProduct, ProductError>)
    ensures
        r == no_sub(product, sub_prod.deep_view()),
{
    if sub_prod.is_some() {
        Err(ProductError::BadProduct)
    } else {
        Ok(product)
    }
}

/// The sub-products of one base product.
pub trait SubProduct: Sized {
    /// The sub-product code that is written for the value.
    spec fn code_of(self) -> Seq<char>;

    /// The further sub-product code that is written for the value, if it has one.
    spec fn further_code_of(self) -> Option<Seq<char>>;

    /// The sub-product that the two codes stand for, or the rule that they break.
    spec fn decode(sub_product: Seq<char>, further: Option<Seq<char>>) -> Result<Self, ProductError>;

    /// The sub-product code that is written for the value.
    fn code(&self) -> (r: &'static str)
        ensures
            r@ == self.code_of(),
    ;

    /// The further sub-product code that is written for the value, if it has one.
    fn further_code(&self) -> (r: Option<&'static str>)
        ensures
            r.deep_view() == self.further_code_of(),
    ;

    /// Decode a sub-product code with its optional further sub-product code.
    fn try_from_codes(sub_product: &str, further_sub_product: Option<&str>) -> (r: Result<Self, ProductError>)
        ensures
            r == Self::decode(sub_product@, further_sub_product.deep_view()),
    ;

    /// Every sub-product is what its own codes decode to.
    proof fn lemma_decode_codes(v: Self)
        ensures
            Self::decode(v.code_of(), v.further_code_of()) == Ok::<Self, ProductError>(v),
    ;

    /// Codes that decode are the codes of what they decode to.
    proof fn lemma_codes_decoded(sub_product: Seq<char>, further: Option<Seq<char>>)
        ensures
            match Self::decode(sub_product, further) {
                Ok(v) => v.code_of() == sub_product && v.further_code_of() == further,
                Err(_) => true,
            },
    ;
}

/// Further classification of grains and oil seeds.
#[derive(Debug, Clone, Copy, PartialEq, Eq, Structural)]
pub enum GrainsAndOilSeedsFurtherSubProduct {
    /// Written `FWHT`.
    FeedWheat,
    /// Written `SOYB`.
    Soybeans,
    /// Written `CORN`.
    Corn,
    /// Written `RPSD`.
    Rapeseed,
    /// Written `RICE`.
    Rice,
    /// Written `OTHR`.
    Other,
}

impl DeepView for GrainsAndOilSeedsFurtherSubProduct {
    type V = GrainsAndOilSeedsFurtherSubProduct;

    open spec fn deep_view(&self) -> GrainsAndOilSeedsFurtherSubProduct {
        *self
    }
}

impl Coded for GrainsAndOilSeedsFurtherSubProduct {
    open spec fn code_of(self) -> Seq<char> {
        match self {
            GrainsAndOilSeedsFurtherSubProduct::FeedWheat => "FWHT"@,
            GrainsAndOilSeedsFurtherSubProduct::Soybeans => "SOYB"@,
            GrainsAndOilSeedsFurtherSubProduct::Corn => "CORN"@,
            GrainsAndOilSeedsFurtherSubProduct::Rapeseed => "RPSD"@,
            GrainsAndOilSeedsFurtherSubProduct::Rice => "RICE"@,
            GrainsAndOilSeedsFurtherSubProduct::Other => "OTHR"@,
        }
    }

    fn code(&self) -> (r: &'static str) {
        match self {
            GrainsAndOilSeedsFurtherSubProduct::FeedWheat => "FWHT",
            GrainsAndOilSeedsFurtherSubProduct::Soybeans => "SOYB",
            GrainsAndOilSeedsFurtherSubProduct::Corn => "CORN",
            GrainsAndOilSeedsFurtherSubProduct::Rapeseed => "RPSD",
            GrainsAndOilSeedsFurtherSubProduct::Rice => "RICE",
            GrainsAndOilSeedsFurtherSubProduct::Other => "OTHR",
        }
    }

    fn from_code(code: &str) -> (r: Option<Self>) {
        if str_eq(code, "FWHT") {
            Some(GrainsAndOilSeedsFurtherSubProduct::FeedWheat)
        } else if str_eq(code, "SOYB") {
            Some(GrainsAndOilSeedsFurtherSubProduct::Soybeans)
        } else if str_eq(code, "CORN") {
            Some(GrainsAndOilSeedsFurtherSubProduct::Corn)
        } else if str_eq(code, "RPSD") {
            Some(GrainsAndOilSeedsFurtherSubProduct::Rapeseed)
        } else if str_eq(code, "RICE") {
            Some(GrainsAndOilSeedsFurtherSubProduct::Rice)
        } else if str_eq(code, "OTHR") {
            Some(GrainsAndOilSeedsFurtherSubProduct::Other)
        } else {
            None
        }
    }

    proof fn lemma_codes_differ(a: Self, b: Self) {
        reveal_strlit("FWHT");
        reveal_strlit("SOYB");
        reveal_strlit("CORN");
        reveal_strlit("RPSD");
        reveal_strlit("RICE");
        reveal_strlit("OTHR");
        assert("FWHT"@[3] == 'T');
        assert("SOYB"@[3] == 'B');
        assert("CORN"@[3] == 'N');
        assert("RPSD"@[3] == 'D');
        assert("RICE"@[3] == 'E');
        assert("OTHR"@[3] == 'R');
    }
}

/// Further classification of softs.
#[derive(Debug, Clone, Copy, PartialEq, Eq, Structural)]
pub enum SoftsFurtherSubProduct {
    /// Written `CCOA`.
    Cocoa,
    /// Written `ROBU`.
    RobustaCoffee,
    /// Written `WHSG`.
    WhiteSugar,
    /// Written `BRWN`.
    RawSugar,
    /// Written `OTHR`.
    Other,
}

impl DeepView for SoftsFurtherSubProduct {
    type V = SoftsFurtherSubProduct;

    open spec fn deep_view(&self) -> SoftsFurtherSubProduct {
        *self
    }
}

impl Coded for SoftsFurtherSubProduct {
    open spec fn code_of(self) -> Seq<char> {
        match self {
            SoftsFurtherSubProduct::Cocoa => "CCOA"@,
            SoftsFurtherSubProduct::RobustaCoffee => "ROBU"@,
            SoftsFurtherSubProduct::WhiteSugar => "WHSG"@,
            SoftsFurtherSubProduct::RawSugar => "BRWN"@,
            SoftsFurtherSubProduct::Other => "OTHR"@,
        }
    }

    fn code(&self) -> (r: &'static str) {
        match self {
            SoftsFurtherSubProduct::Cocoa => "CCOA",
            SoftsFurtherSubProduct::RobustaCoffee => "ROBU",
            SoftsFurtherSubProduct::WhiteSugar => "WHSG",
            SoftsFurtherSubProduct::RawSugar => "BRWN",
            SoftsFurtherSubProduct::Other => "OTHR",
        }
    }

    fn from_code(code: &str) -> (r: Option<Self>) {
        if str_eq(code, "CCOA") {
            Some(SoftsFurtherSubProduct::Cocoa)
        } else if str_eq(code, "ROBU") {
            Some(SoftsFurtherSubProduct::RobustaCoffee)
        } else if str_eq(code, "WHSG") {
            Some(SoftsFurtherSubProduct::WhiteSugar)
        } else if str_eq(code, "BRWN") {
            Some(SoftsFurtherSubProduct::RawSugar)
        } else if str_eq(code, "OTHR") {
            Some(SoftsFurtherSubProduct::Other)
        } else {
            None
        }
    }

    proof fn lemma_codes_differ(a: Self, b: Self) {
        reveal_strlit("CCOA");
        reveal_strlit("ROBU");
        reveal_strlit("WHSG");
        reveal_strlit("BRWN");
        reveal_strlit("OTHR");
        assert("CCOA"@[0] == 'C');
        assert("ROBU"@[0] == 'R');
        assert("WHSG"@[0] == 'W');
        assert("BRWN"@[0] == 'B');
        assert("OTHR"@[0] == 'O');
    }
}

/// Further classification of olive oil.
#[derive(Debug, Clone, Copy, PartialEq, Eq, Structural)]
pub enum OliveOilFurtherSubProduct {
    /// Written `LAMP`.
    Lampante,
}

impl DeepView for OliveOilFurtherSubProduct {
    type V = OliveOilFurtherSubProduct;

    open spec fn deep_view(&self) -> OliveOilFurtherSubProduct {
        *self
    }
}

impl Coded for OliveOilFurtherSubProduct {
    open spec fn code_of(self) -> Seq<char> {
        match self {
            OliveOilFurtherSubProduct::Lampante => "LAMP"@,
        }
    }

    fn code(&self) -> (r: &'static str) {
        match self {
            OliveOilFurtherSubProduct::Lampante => "LAMP",
        }
    }

    fn from_code(code: &str) -> (r: Option<Self>) {
        if str_eq(code, "LAMP") {
            Some(OliveOilFurtherSubProduct::Lampante)
        } else {
            None
        }
    }

    proof fn lemma_codes_differ(a: Self, b: Self) {
    }
}

/// Further classification of grain.
#[derive(Debug, Clone, Copy, PartialEq, Eq, Structural)]
pub enum GrainFurtherSubProduct {
    /// Written `MWHT`.
    MillingWheat,
}

impl DeepView for GrainFurtherSubProduct {
    type V = GrainFurtherSubProduct;

    open spec fn deep_view(&self) -> GrainFurtherSubProduct {
        *self
    }
}

impl Coded for GrainFurtherSubProduct {
    open spec fn code_of(self) -> Seq<char> {
        match self {
            GrainFurtherSubProduct::MillingWheat => "MWHT"@,
        }
    }

    fn code(&self) -> (r: &'static str) {
        match self {
            GrainFurtherSubProduct::MillingWheat => "MWHT",
        }
    }

    fn from_code(code: &str) -> (r: Option<Self>) {
        if str_eq(code, "MWHT") {
            Some(GrainFurtherSubProduct::MillingWheat)
        } else {
            None
        }
    }

    proof fn lemma_codes_differ(a: Self, b: Self) {
    }
}

/// Further classification of electricity.
#[derive(Debug, Clone, Copy, PartialEq, Eq, Structural)]
pub enum ElectricityFurtherSubProduct {
    /// Written `BSLD`.
    BaseLoad,
    /// Written `FITR`.
    FinancialTransmissionRights,
    /// Written `PKLD`.
    PeakLoad,
    /// Written `OFFP`.
    OffPeak,
    /// Written `OTHR`.
    Other,
}

impl DeepView for ElectricityFurtherSubProduct {
    type V = ElectricityFurtherSubProduct;

    open spec fn deep_view(&self) -> ElectricityFurtherSubProduct {
        *self
    }
}

impl Coded for ElectricityFurtherSubProduct {
    open spec fn code_of(self) -> Seq<char> {
        match self {
            ElectricityFurtherSubProduct::BaseLoad => "BSLD"@,
            ElectricityFurtherSubProduct::FinancialTransmissionRights => "FITR"@,
            ElectricityFurtherSubProduct::PeakLoad => "PKLD"@,
            ElectricityFurtherSubProduct::OffPeak => "OFFP"@,
            ElectricityFurtherSubProduct::Other => "OTHR"@,
        }
    }

    fn code(&self) -> (r: &'static str) {
        match self {
            ElectricityFurtherSubProduct::BaseLoad => "BSLD",
            ElectricityFurtherSubProduct::FinancialTransmissionRights => "FITR",
            ElectricityFurtherSubProduct::PeakLoad => "PKLD",
            ElectricityFurtherSubProduct::OffPeak => "OFFP",
            ElectricityFurtherSubProduct::Other => "OTHR",
        }
    }

    fn from_code(code: &str) -> (r: Option<Self>) {
        if str_eq(code, "BSLD") {
            Some(ElectricityFurtherSubProduct::BaseLoad)
        } else if str_eq(code, "FITR") {
            Some(ElectricityFurtherSubProduct::FinancialTransmissionRights)
        } else if str_eq(code, "PKLD") {
            Some(ElectricityFurtherSubProduct::PeakLoad)
        } else if str_eq(code, "OFFP") {
            Some(ElectricityFurtherSubProduct::OffPeak)
        } else if str_eq(code, "OTHR") {
            Some(ElectricityFurtherSubProduct::Other)
        } else {
            None
        }
    }

    proof fn lemma_codes_differ(a: Self, b: Self) {
        reveal_strlit("BSLD");
        reveal_strlit("FITR");
        reveal_strlit("PKLD");
        reveal_strlit("OFFP");
        reveal_strlit("OTHR");
        assert("BSLD"@[1] == 'S');
        assert("FITR"@[1] == 'I');
        assert("PKLD"@[1] == 'K');
        assert("OFFP"@[1] == 'F');
        assert("OTHR"@[1] == 'T');
    }
}

/// Further classification of natural gas.
#[derive(Debug, Clone, Copy, PartialEq, Eq, Structural)]
pub enum NaturalGasFurtherSubProduct {
    /// Written `GASP`.
    Gaspool,
    /// Written `LNGG`.
    Lng,
    /// Written `NBPG`.
    Nbp,
    /// Written `NCGG`.
    Ncg,
    /// Written `TTFG`.
    Ttf,
}

impl DeepView for NaturalGasFurtherSubProduct {
    type V = NaturalGasFurtherSubProduct;

    open spec fn deep_view(&self) -> NaturalGasFurtherSubProduct {
        *self
    }
}

impl Coded for NaturalGasFurtherSubProduct {
    open spec fn code_of(self) -> Seq<char> {
        match self {
            NaturalGasFurtherSubProduct::Gaspool => "GASP"@,
            NaturalGasFurtherSubProduct::Lng => "LNGG"@,
            NaturalGasFurtherSubProduct::Nbp => "NBPG"@,
            NaturalGasFurtherSubProduct::Ncg => "NCGG"@,
            NaturalGasFurtherSubProduct::Ttf => "TTFG"@,
        }
    }

    fn code(&self) -> (r: &'static str) {
        match self {
            NaturalGasFurtherSubProduct::Gaspool => "GASP",
            NaturalGasFurtherSubProduct::Lng => "LNGG",
            NaturalGasFurtherSubProduct::Nbp => "NBPG",
            NaturalGasFurtherSubProduct::Ncg => "NCGG",
            NaturalGasFurtherSubProduct::Ttf => "TTFG",
        }
    }

    fn from_code(code: &str) -> (r: Option<Self>) {
        if str_eq(code, "GASP") {
            Some(NaturalGasFurtherSubProduct::Gaspool)
        } else if str_eq(code, "LNGG") {
            Some(NaturalGasFurtherSubProduct::Lng)
        } else if str_eq(code, "NBPG") {
            Some(NaturalGasFurtherSubProduct::Nbp)
        } else if str_eq(code, "NCGG") {
            Some(NaturalGasFurtherSubProduct::Ncg)
        } else if str_eq(code, "TTFG") {
            Some(NaturalGasFurtherSubProduct::Ttf)
        } else {
            None
        }
    }

    proof fn lemma_codes_differ(a: Self, b: Self) {
        reveal_strlit("GASP");
        reveal_strlit("LNGG");
        reveal_strlit("NBPG");
        reveal_strlit("NCGG");
        reveal_strlit("TTFG");
        assert("GASP"@[1] == 'A');
        assert("LNGG"@[1] == 'N');
        assert("NBPG"@[1] == 'B');
        assert("NCGG"@[1] == 'C');
        assert("TTFG"@[1] == 'T');
    }
}

/// Further classification of oil.
#[derive(Debug, Clone, Copy, PartialEq, Eq, Structural)]
pub enum OilFurtherSubProduct {
    /// Written `BAKK`.
    Bakken,
    /// Written `BDSL`.
    Biodiesel,
    /// Written `BRNT`.
    Brent,
    /// Written `BRNX`.
    BrentNx,
    /// Written `CNDA`.
    Canadian,
    /// Written `COND`.
    Condensate,
    /// Written `DSEL`.
    Diesel,
    /// Written `DUBA`.
    Dubai,
    /// Written `ESPO`.
    Espo,
    /// Written `ETHA`.
    Ethanol,
    /// Written `FUEL`.
    Fuel,
    /// Written `FOIL`.
    FuelOil,
    /// Written `GOIL`.
    Gasoil,
    /// Written `GSLN`.
    Gasoline,
    /// Written `HEAT`.
    HeatingOil,
    /// Written `JTFL`.
    JetFuel,
    /// Written `KERO`.
    Kerosene,
    /// Written `LLSO`.
    LightLouisianaSweet,
    /// Written `MARS`.
    Mars,
    /// Written `NAPH`.
    Naphtha,
    /// Written `NGLO`.
    Ngl,
    /// Written `TAPI`.
    Tapis,
    /// Written `URAL`.
    Urals,
    /// Written `WTIO`.
    Wti,
}

impl DeepView for OilFurtherSubProduct {
    type V = OilFurtherSubProduct;

    open spec fn deep_view(&self) -> OilFurtherSubProduct {
        *self
    }
}

impl Coded for OilFurtherSubProduct {
    open spec fn code_of(self) -> Seq<char> {
        match self {
            OilFurtherSubProduct::Bakken => "BAKK"@,
            OilFurtherSubProduct::Biodiesel => "BDSL"@,
            OilFurtherSubProduct::Brent => "BRNT"@,
            OilFurtherSubProduct::BrentNx => "BRNX"@,
            OilFurtherSubProduct::Canadian => "CNDA"@,
            OilFurtherSubProduct::Condensate => "COND"@,
            OilFurtherSubProduct::Diesel => "DSEL"@,
            OilFurtherSubProduct::Dubai => "DUBA"@,
            OilFurtherSubProduct::Espo => "ESPO"@,
            OilFurtherSubProduct::Ethanol => "ETHA"@,
            OilFurtherSubProduct::Fuel => "FUEL"@,
            OilFurtherSubProduct::FuelOil => "FOIL"@,
            OilFurtherSubProduct::Gasoil => "GOIL"@,
            OilFurtherSubProduct::Gasoline => "GSLN"@,
            OilFurtherSubProduct::HeatingOil => "HEAT"@,
            OilFurtherSubProduct::JetFuel => "JTFL"@,
            OilFurtherSubProduct::Kerosene => "KERO"@,
            OilFurtherSubProduct::LightLouisianaSweet => "LLSO"@,
            OilFurtherSubProduct::Mars => "MARS"@,
            OilFurtherSubProduct::Naphtha => "NAPH"@,
            OilFurtherSubProduct::Ngl => "NGLO"@,
            OilFurtherSubProduct::Tapis => "TAPI"@,
            OilFurtherSubProduct::Urals => "URAL"@,
            OilFurtherSubProduct::Wti => "WTIO"@,
        }
    }

    fn code(&self) -> (r: &'static str) {
        match self {
            OilFurtherSubProduct::Bakken => "BAKK",
            OilFurtherSubProduct::Biodiesel => "BDSL",
            OilFurtherSubProduct::Brent => "BRNT",
            OilFurtherSubProduct::BrentNx => "BRNX",
            OilFurtherSubProduct::Canadian => "CNDA",
            OilFurtherSubProduct::Condensate => "COND",
            OilFurtherSubProduct::Diesel => "DSEL",
            OilFurtherSubProduct::Dubai => "DUBA",
            OilFurtherSubProduct::Espo => "ESPO",
            OilFurtherSubProduct::Ethanol => "ETHA",
            OilFurtherSubProduct::Fuel => "FUEL",
            OilFurtherSubProduct::FuelOil => "FOIL",
            OilFurtherSubProduct::Gasoil => "GOIL",
            OilFurtherSubProduct::Gasoline => "GSLN",
            OilFurtherSubProduct::HeatingOil => "HEAT",
            OilFurtherSubProduct::JetFuel => "JTFL",
            OilFurtherSubProduct::Kerosene => "KERO",
            OilFurtherSubProduct::LightLouisianaSweet => "LLSO",
            OilFurtherSubProduct::Mars => "MARS",
            OilFurtherSubProduct::Naphtha => "NAPH",
            OilFurtherSubProduct::Ngl => "NGLO",
            OilFurtherSubProduct::Tapis => "TAPI",
            OilFurtherSubProduct::Urals => "URAL",
            OilFurtherSubProduct::Wti => "WTIO",
        }
    }

    fn from_code(code: &str) -> (r: Option<Self>) {
        if str_eq(code, "BAKK") {
            Some(OilFurtherSubProduct::Bakken)
        } else if str_eq(code, "BDSL") {
            Some(OilFurtherSubProduct::Biodiesel)
        } else if str_eq(code, "BRNT") {
            Some(OilFurtherSubProduct::Brent)
        } else if str_eq(code, "BRNX") {
            Some(OilFurtherSubProduct::BrentNx)
        } else if str_eq(code, "CNDA") {
            Some(OilFurtherSubProduct::Canadian)
        } else if str_eq(code, "COND") {
            Some(OilFurtherSubProduct::Condensate)
        } else if str_eq(code, "DSEL") {
            Some(OilFurtherSubProduct::Diesel)
        } else if str_eq(code, "DUBA") {
            Some(OilFurtherSubProduct::Dubai)
        } else if str_eq(code, "ESPO") {
            Some(OilFurtherSubProduct::Espo)
        } else if str_eq(code, "ETHA") {
            Some(OilFurtherSubProduct::Ethanol)
        } else if str_eq(code, "FUEL") {
            Some(OilFurtherSubProduct::Fuel)
        } else if str_eq(code, "FOIL") {
            Some(OilFurtherSubProduct::FuelOil)
        } else if str_eq(code, "GOIL") {
            Some(OilFurtherSubProduct::Gasoil)
        } else if str_eq(code, "GSLN") {
            Some(OilFurtherSubProduct::Gasoline)
        } else if str_eq(code, "HEAT") {
            Some(OilFurtherSubProduct::HeatingOil)
        } else if str_eq(code, "JTFL") {
            Some(OilFurtherSubProduct::JetFuel)
        } else if str_eq(code, "KERO") {
            Some(OilFurtherSubProduct::Kerosene)
        } else if str_eq(code, "LLSO") {
            Some(OilFurtherSubProduct::LightLouisianaSweet)
        } else if str_eq(code, "MARS") {
            Some(OilFurtherSubProduct::Mars)
        } else if str_eq(code, "NAPH") {
            Some(OilFurtherSubProduct::Naphtha)
        } else if str_eq(code, "NGLO") {
            Some(OilFurtherSubProduct::Ngl)
        } else if str_eq(code, "TAPI") {
            Some(OilFurtherSubProduct::Tapis)
        } else if str_eq(code, "URAL") {
            Some(OilFurtherSubProduct::Urals)
        } else if str_eq(code, "WTIO") {
            Some(OilFurtherSubProduct::Wti)
        } else {
            None
        }
    }

    proof fn lemma_codes_differ(a: Self, b: Self) {
        reveal_strlit("BAKK");
        reveal_strlit("BDSL");
        reveal_strlit("BRNT");
        reveal_strlit("BRNX");
        reveal_strlit("CNDA");
        reveal_strlit("COND");
        reveal_strlit("DSEL");
        reveal_strlit("DUBA");
        reveal_strlit("ESPO");
        reveal_strlit("ETHA");
        reveal_strlit("FUEL");
        reveal_strlit("FOIL");
        reveal_strlit("GOIL");
        reveal_strlit("GSLN");
        reveal_strlit("HEAT");
        reveal_strlit("JTFL");
        reveal_strlit("KERO");
        reveal_strlit("LLSO");
        reveal_strlit("MARS");
        reveal_strlit("NAPH");
        reveal_strlit("NGLO");
        reveal_strlit("TAPI");
        reveal_strlit("URAL");
        reveal_strlit("WTIO");
        assert("BAKK"@[0] == 'B' && "BAKK"@[1] == 'A' && "BAKK"@[3] == 'K');
        assert("BDSL"@[0] == 'B' && "BDSL"@[1] == 'D' && "BDSL"@[3] == 'L');
        assert("BRNT"@[0] == 'B' && "BRNT"@[1] == 'R' && "BRNT"@[3] == 'T');
        assert("BRNX"@[0] == 'B' && "BRNX"@[1] == 'R' && "BRNX"@[3] == 'X');
        assert("CNDA"@[0] == 'C' && "CNDA"@[1] == 'N' && "CNDA"@[3] == 'A');
        assert("COND"@[0] == 'C' && "COND"@[1] == 'O' && "COND"@[3] == 'D');
        assert("DSEL"@[0] == 'D' && "DSEL"@[1] == 'S' && "DSEL"@[3] == 'L');
        assert("DUBA"@[0] == 'D' && "DUBA"@[1] == 'U' && "DUBA"@[3] == 'A');
        assert("ESPO"@[0] == 'E' && "ESPO"@[1] == 'S' && "ESPO"@[3] == 'O');
        assert("ETHA"@[0] == 'E' && "ETHA"@[1] == 'T' && "ETHA"@[3] == 'A');
        assert("FUEL"@[0] == 'F' && "FUEL"@[1] == 'U' && "FUEL"@[3] == 'L');
        assert("FOIL"@[0] == 'F' && "FOIL"@[1] == 'O' && "FOIL"@[3] == 'L');
        assert("GOIL"@[0] == 'G' && "GOIL"@[1] == 'O' && "GOIL"@[3] == 'L');
        assert("GSLN"@[0] == 'G' && "GSLN"@[1] == 'S' && "GSLN"@[3] == 'N');
        assert("HEAT"@[0] == 'H' && "HEAT"@[1] == 'E' && "HEAT"@[3] == 'T');
        assert("JTFL"@[0] == 'J' && "JTFL"@[1] == 'T' && "JTFL"@[3] == 'L');
        assert("KERO"@[0] == 'K' && "KERO"@[1] == 'E' && "KERO"@[3] == 'O');
        assert("LLSO"@[0] == 'L' && "LLSO"@[1] == 'L' && "LLSO"@[3] == 'O');
        assert("MARS"@[0] == 'M' && "MARS"@[1] == 'A' && "MARS"@[3] == 'S');
        assert("NAPH"@[0] == 'N' && "NAPH"@[1] == 'A' && "NAPH"@[3] == 'H');
        assert("NGLO"@[0] == 'N' && "NGLO"@[1] == 'G' && "NGLO"@[3] == 'O');
        assert("TAPI"@[0] == 'T' && "TAPI"@[1] == 'A' && "TAPI"@[3] == 'I');
        assert("URAL"@[0] == 'U' && "URAL"@[1] == 'R' && "URAL"@[3] == 'L');
        assert("WTIO"@[0] == 'W' && "WTIO"@[1] == 'T' && "WTIO"@[3] == 'O');
    }
}

/// Further classification of emission allowances.
#[derive(Debug, Clone, Copy, PartialEq, Eq, Structural)]
pub enum EmissionsFurtherSubProduct {
    /// Written `CERE`.
    Cer,
    /// Written `ERUE`.
    Eru,
    /// Written `EUAE`.
    Euae,
    /// Written `EUAA`.
    Euaa,
    /// Written `OTHR`.
    Other,
}

impl DeepView for EmissionsFurtherSubProduct {
    type V = EmissionsFurtherSubProduct;

    open spec fn deep_view(&self) -> EmissionsFurtherSubProduct {
        *self
    }
}

impl Coded for EmissionsFurtherSubProduct {
    open spec fn code_of(self) -> Seq<char> {
        match self {
            EmissionsFurtherSubProduct::Cer => "CERE"@,
            EmissionsFurtherSubProduct::Eru => "ERUE"@,
            EmissionsFurtherSubProduct::Euae => "EUAE"@,
            EmissionsFurtherSubProduct::Euaa => "EUAA"@,
            EmissionsFurtherSubProduct::Other => "OTHR"@,
        }
    }

    fn code(&self) -> (r: &'static str) {
        match self {
            EmissionsFurtherSubProduct::Cer => "CERE",
            EmissionsFurtherSubProduct::Eru => "ERUE",
            EmissionsFurtherSubProduct::Euae => "EUAE",
            EmissionsFurtherSubProduct::Euaa => "EUAA",
            EmissionsFurtherSubProduct::Other => "OTHR",
        }
    }

    fn from_code(code: &str) -> (r: Option<Self>) {
        if str_eq(code, "CERE") {
            Some(EmissionsFurtherSubProduct::Cer)
        } else if str_eq(code, "ERUE") {
            Some(EmissionsFurtherSubProduct::Eru)
        } else if str_eq(code, "EUAE") {
            Some(EmissionsFurtherSubProduct::Euae)
        } else if str_eq(code, "EUAA") {
            Some(EmissionsFurtherSubProduct::Euaa)
        } else if str_eq(code, "OTHR") {
            Some(EmissionsFurtherSubProduct::Other)
        } else {
            None
        }
    }

    proof fn lemma_codes_differ(a: Self, b: Self) {
        reveal_strlit("CERE");
        reveal_strlit("ERUE");
        reveal_strlit("EUAE");
        reveal_strlit("EUAA");
        reveal_strlit("OTHR");
        assert("CERE"@[1] == 'E' && "CERE"@[3] == 'E');
        assert("ERUE"@[1] == 'R' && "ERUE"@[3] == 'E');
        assert("EUAE"@[1] == 'U' && "EUAE"@[3] == 'E');
        assert("EUAA"@[1] == 'U' && "EUAA"@[3] == 'A');
        assert("OTHR"@[1] == 'T' && "OTHR"@[3] == 'R');
    }
}

/// Further classification of wet freight.
#[derive(Debug, Clone, Copy, PartialEq, Eq, Structural)]
pub enum WetFreightFurtherSubProduct {
    /// Written `TNKR`.
    Tankers,
}

impl DeepView for WetFreightFurtherSubProduct {
    type V = WetFreightFurtherSubProduct;

    open spec fn deep_view(&self) -> WetFreightFurtherSubProduct {
        *self
    }
}

impl Coded for WetFreightFurtherSubProduct {
    open spec fn code_of(self) -> Seq<char> {
        match self {
            WetFreightFurtherSubProduct::Tankers => "TNKR"@,
        }
    }

    fn code(&self) -> (r: &'static str) {
        match self {
            WetFreightFurtherSubProduct::Tankers => "TNKR",
        }
    }

    fn from_code(code: &str) -> (r: Option<Self>) {
        if str_eq(code, "TNKR") {
            Some(WetFreightFurtherSubProduct::Tankers)
        } else {
            None
        }
    }

    proof fn lemma_codes_differ(a: Self, b: Self) {
    }
}

/// Further classification of dry freight.
#[derive(Debug, Clone, Copy, PartialEq, Eq, Structural)]
pub enum DryFreightFurtherSubProduct {
    /// Written `DBCR`.
    DryBulkCarriers,
}

impl DeepView for DryFreightFurtherSubProduct {
    type V = DryFreightFurtherSubProduct;

    open spec fn deep_view(&self) -> DryFreightFurtherSubProduct {
        *self
    }
}

impl Coded for DryFreightFurtherSubProduct {
    open spec fn code_of(self) -> Seq<char> {
        match self {
            DryFreightFurtherSubProduct::DryBulkCarriers => "DBCR"@,
        }
    }

    fn code(&self) -> (r: &'static str) {
        match self {
            DryFreightFurtherSubProduct::DryBulkCarriers => "DBCR",
        }
    }

    fn from_code(code: &str) -> (r: Option<Self>) {
        if str_eq(code, "DBCR") {
            Some(DryFreightFurtherSubProduct::DryBulkCarriers)
        } else {
            None
        }
    }

    proof fn lemma_codes_differ(a: Self, b: Self) {
    }
}

/// Further classification of non-precious metals.
#[derive(Debug, Clone, Copy, PartialEq, Eq, Structural)]
pub enum NonPreciousMetalsFurtherSubProduct {
    /// Written `ALUM`.
    Aluminium,
    /// Written `ALUA`.
    AluminiumAlloy,
    /// Written `CBLT`.
    Cobalt,
    /// Written `COPR`.
    Copper,
    /// Written `IRON`.
    IronOre,
    /// Written `LEAD`.
    Lead,
    /// Written `MOLY`.
    Molybdenum,
    /// Written `NASC`.
    Nasaac,
    /// Written `NICK`.
    Nickel,
    /// Written `STEL`.
    Steel,
    /// Written `TINN`.
    Tin,
    /// Written `ZINC`.
    Zinc,
    /// Written `OTHR`.
    Other,
}

impl DeepView for NonPreciousMetalsFurtherSubProduct {
    type V = NonPreciousMetalsFurtherSubProduct;

    open spec fn deep_view(&self) -> NonPreciousMetalsFurtherSubProduct {
        *self
    }
}

impl Coded for NonPreciousMetalsFurtherSubProduct {
    open spec fn code_of(self) -> Seq<char> {
        match self {
            NonPreciousMetalsFurtherSubProduct::Aluminium => "ALUM"@,
            NonPreciousMetalsFurtherSubProduct::AluminiumAlloy => "ALUA"@,
            NonPreciousMetalsFurtherSubProduct::Cobalt => "CBLT"@,
            NonPreciousMetalsFurtherSubProduct::Copper => "COPR"@,
            NonPreciousMetalsFurtherSubProduct::IronOre => "IRON"@,
            NonPreciousMetalsFurtherSubProduct::Lead => "LEAD"@,
            NonPreciousMetalsFurtherSubProduct::Molybdenum => "MOLY"@,
            NonPreciousMetalsFurtherSubProduct::Nasaac => "NASC"@,
            NonPreciousMetalsFurtherSubProduct::Nickel => "NICK"@,
            NonPreciousMetalsFurtherSubProduct::Steel => "STEL"@,
            NonPreciousMetalsFurtherSubProduct::Tin => "TINN"@,
            NonPreciousMetalsFurtherSubProduct::Zinc => "ZINC"@,
            NonPreciousMetalsFurtherSubProduct::Other => "OTHR"@,
        }
    }

    fn code(&self) -> (r: &'static str) {
        match self {
            NonPreciousMetalsFurtherSubProduct::Aluminium => "ALUM",
            NonPreciousMetalsFurtherSubProduct::AluminiumAlloy => "ALUA",
            NonPreciousMetalsFurtherSubProduct::Cobalt => "CBLT",
            NonPreciousMetalsFurtherSubProduct::Copper => "COPR",
            NonPreciousMetalsFurtherSubProduct::IronOre => "IRON",
            NonPreciousMetalsFurtherSubProduct::Lead => "LEAD",
            NonPreciousMetalsFurtherSubProduct::Molybdenum => "MOLY",
            NonPreciousMetalsFurtherSubProduct::Nasaac => "NASC",
            NonPreciousMetalsFurtherSubProduct::Nickel => "NICK",
            NonPreciousMetalsFurtherSubProduct::Steel => "STEL",
            NonPreciousMetalsFurtherSubProduct::Tin => "TINN",
            NonPreciousMetalsFurtherSubProduct::Zinc => "ZINC",
            NonPreciousMetalsFurtherSubProduct::Other => "OTHR",
        }
    }

    fn from_code(code: &str) -> (r: Option<Self>) {
        if str_eq(code, "ALUM") {
            Some(NonPreciousMetalsFurtherSubProduct::Aluminium)
        } else if str_eq(code, "ALUA") {
            Some(NonPreciousMetalsFurtherSubProduct::AluminiumAlloy)
        } else if str_eq(code, "CBLT") {
            Some(NonPreciousMetalsFurtherSubProduct::Cobalt)
        } else if str_eq(code, "COPR") {
            Some(NonPreciousMetalsFurtherSubProduct::Copper)
        } else if str_eq(code, "IRON") {
            Some(NonPreciousMetalsFurtherSubProduct::IronOre)
        } else if str_eq(code, "LEAD") {
            Some(NonPreciousMetalsFurtherSubProduct::Lead)
        } else if str_eq(code, "MOLY") {
            Some(NonPreciousMetalsFurtherSubProduct::Molybdenum)
        } else if str_eq(code, "NASC") {
            Some(NonPreciousMetalsFurtherSubProduct::Nasaac)
        } else if str_eq(code, "NICK") {
            Some(NonPreciousMetalsFurtherSubProduct::Nickel)
        } else if str_eq(code, "STEL") {
            Some(NonPreciousMetalsFurtherSubProduct::Steel)
        } else if str_eq(code, "TINN") {
            Some(NonPreciousMetalsFurtherSubProduct::Tin)
        } else if str_eq(code, "ZINC") {
            Some(NonPreciousMetalsFurtherSubProduct::Zinc)
        } else if str_eq(code, "OTHR") {
            Some(NonPreciousMetalsFurtherSubProduct::Other)
        } else {
            None
        }
    }

    proof fn lemma_codes_differ(a: Self, b: Self) {
        reveal_strlit("ALUM");
        reveal_strlit("ALUA");
        reveal_strlit("CBLT");
        reveal_strlit("COPR");
        reveal_strlit("IRON");
        reveal_strlit("LEAD");
        reveal_strlit("MOLY");
        reveal_strlit("NASC");
        reveal_strlit("NICK");
        reveal_strlit("STEL");
        reveal_strlit("TINN");
        reveal_strlit("ZINC");
        reveal_strlit("OTHR");
        assert("ALUM"@[0] == 'A' && "ALUM"@[3] == 'M');
        assert("ALUA"@[0] == 'A' && "ALUA"@[3] == 'A');
        assert("CBLT"@[0] == 'C' && "CBLT"@[3] == 'T');
        assert("COPR"@[0] == 'C' && "COPR"@[3] == 'R');
        assert("IRON"@[0] == 'I' && "IRON"@[3] == 'N');
        assert("LEAD"@[0] == 'L' && "LEAD"@[3] == 'D');
        assert("MOLY"@[0] == 'M' && "MOLY"@[3] == 'Y');
        assert("NASC"@[0] == 'N' && "NASC"@[3] == 'C');
        assert("NICK"@[0] == 'N' && "NICK"@[3] == 'K');
        assert("STEL"@[0] == 'S' && "STEL"@[3] == 'L');
        assert("TINN"@[0] == 'T' && "TINN"@[3] == 'N');
        assert("ZINC"@[0] == 'Z' && "ZINC"@[3] == 'C');
        assert("OTHR"@[0] == 'O' && "OTHR"@[3] == 'R');
    }
}

/// Further classification of precious metals.
#[derive(Debug, Clone, Copy, PartialEq, Eq, Structural)]
pub enum PreciousMetalsFurtherSubProduct {
    /// Written `GOLD`.
    Gold,
    /// Written `SLVR`.
    Silver,
    /// Written `PTNM`.
    Platinum,
    /// Written `PLDM`.
    Palladium,
    /// Written `OTHR`.
    Other,
}

impl DeepView for PreciousMetalsFurtherSubProduct {
    type V = PreciousMetalsFurtherSubProduct;

    open spec fn deep_view(&self) -> PreciousMetalsFurtherSubProduct {
        *self
    }
}

impl Coded for PreciousMetalsFurtherSubProduct {
    open spec fn code_of(self) -> Seq<char> {
        match self {
            PreciousMetalsFurtherSubProduct::Gold => "GOLD"@,
            PreciousMetalsFurtherSubProduct::Silver => "SLVR"@,
            PreciousMetalsFurtherSubProduct::Platinum => "PTNM"@,
            PreciousMetalsFurtherSubProduct::Palladium => "PLDM"@,
            PreciousMetalsFurtherSubProduct::Other => "OTHR"@,
        }
    }

    fn code(&self) -> (r: &'static str) {
        match self {
            PreciousMetalsFurtherSubProduct::Gold => "GOLD",
            PreciousMetalsFurtherSubProduct::Silver => "SLVR",
            PreciousMetalsFurtherSubProduct::Platinum => "PTNM",
            PreciousMetalsFurtherSubProduct::Palladium => "PLDM",
            PreciousMetalsFurtherSubProduct::Other => "OTHR",
        }
    }

    fn from_code(code: &str) -> (r: Option<Self>) {
        if str_eq(code, "GOLD") {
            Some(PreciousMetalsFurtherSubProduct::Gold)
        } else if str_eq(code, "SLVR") {
            Some(PreciousMetalsFurtherSubProduct::Silver)
        } else if str_eq(code, "PTNM") {
            Some(PreciousMetalsFurtherSubProduct::Platinum)
        } else if str_eq(code, "PLDM") {
            Some(PreciousMetalsFurtherSubProduct::Palladium)
        } else if str_eq(code, "OTHR") {
            Some(PreciousMetalsFurtherSubProduct::Other)
        } else {
            None
        }
    }

    proof fn lemma_codes_differ(a: Self, b: Self) {
        reveal_strlit("GOLD");
        reveal_strlit("SLVR");
        reveal_strlit("PTNM");
        reveal_strlit("PLDM");
        reveal_strlit("OTHR");
        assert("GOLD"@[2] == 'L');
        assert("SLVR"@[2] == 'V');
        assert("PTNM"@[2] == 'N');
        assert("PLDM"@[2] == 'D');
        assert("OTHR"@[2] == 'H');
    }
}

/// Sub-products of agricultural commodities.
#[derive(Debug, Clone, Copy, PartialEq, Eq, Structural)]
pub enum AgriculturalSubProduct {
    /// Written `GROS`; a further code is mandatory.
    GrainsAndOilSeeds(GrainsAndOilSeedsFurtherSubProduct),
    /// Written `SOFT`; a further code is mandatory.
    Softs(SoftsFurtherSubProduct),
    /// Written `POTA`; takes no further code.
    Potato,
    /// Written `OOLI`; a further code is optional.
    OliveOil(Option<OliveOilFurtherSubProduct>),
    /// Written `DIRY`; takes no further code.
    Dairy,
    /// Written `FRST`; takes no further code.
    Forestry,
    /// Written `SEAF`; takes no further code.
    Seafood,
    /// Written `LSTK`; takes no further code.
    Livestock,
    /// Written `GRIN`; a further code is optional.
    Grain(Option<GrainFurtherSubProduct>),
}

impl DeepView for AgriculturalSubProduct {
    type V = AgriculturalSubProduct;

    open spec fn deep_view(&self) -> AgriculturalSubProduct {
        *self
    }
}

impl AgriculturalSubProduct {
    /// The sub-product `GROS` with the further sub-product that `code` is written for.
    fn grains_and_oil_seeds(code: &str) -> (r: Result<Self, ProductError>)
        ensures
            r == match value_of::<GrainsAndOilSeedsFurtherSubProduct>(code@) {
                Some(f) => Ok(AgriculturalSubProduct::GrainsAndOilSeeds(f)),
                None => Err(ProductError::BadSubProduct),
            },
    {
        let parsed = GrainsAndOilSeedsFurtherSubProduct::from_code(code);
        proof {
            lemma_value_of_parsed(code@, parsed);
        }
        match parsed {
            Some(f) => Ok(AgriculturalSubProduct::GrainsAndOilSeeds(f)),
            None => Err(ProductError::BadSubProduct),
        }
    }

    /// The sub-product `SOFT` with the further sub-product that `code` is written for.
    fn softs(code: &str) -> (r: Result<Self, ProductError>)
        ensures
            r == match value_of::<SoftsFurtherSubProduct>(code@) {
                Some(f) => Ok(AgriculturalSubProduct::Softs(f)),
                None => Err(ProductError::BadSubProduct),
            },
    {
        let parsed = SoftsFurtherSubProduct::from_code(code);
        proof {
            lemma_value_of_parsed(code@, parsed);
        }
        match parsed {
            Some(f) => Ok(AgriculturalSubProduct::Softs(f)),
            None => Err(ProductError::BadSubProduct),
        }
    }
}

impl SubProduct for AgriculturalSubProduct {
    open spec fn code_of(self) -> Seq<char> {
        match self {
            AgriculturalSubProduct::GrainsAndOilSeeds(_) => "GROS"@,
            AgriculturalSubProduct::Softs(_) => "SOFT"@,
            AgriculturalSubProduct::Potato => "POTA"@,
            AgriculturalSubProduct::OliveOil(_) => "OOLI"@,
            AgriculturalSubProduct::Dairy => "DIRY"@,
            AgriculturalSubProduct::Forestry => "FRST"@,
            AgriculturalSubProduct::Seafood => "SEAF"@,
            AgriculturalSubProduct::Livestock => "LSTK"@,
            AgriculturalSubProduct::Grain(_) => "GRIN"@,
        }
    }

    open spec fn further_code_of(self) -> Option<Seq<char>> {
        match self {
            AgriculturalSubProduct::GrainsAndOilSeeds(f) => Some(f.code_of()),
            AgriculturalSubProduct::Softs(f) => Some(f.code_of()),
            AgriculturalSubProduct::Potato => None,
            AgriculturalSubProduct::OliveOil(Some(f)) => Some(f.code_of()),
            AgriculturalSubProduct::OliveOil(None) => None,
            AgriculturalSubProduct::Dairy => None,
            AgriculturalSubProduct::Forestry => None,
            AgriculturalSubProduct::Seafood => None,
            AgriculturalSubProduct::Livestock => None,
            AgriculturalSubProduct::Grain(Some(f)) => Some(f.code_of()),
            AgriculturalSubProduct::Grain(None) => None,
        }
    }

    open spec fn decode(sub_product: Seq<char>, further: Option<Seq<char>>) -> Result<Self, ProductError> {
        if sub_product == "GROS"@ {
            match required_further::<GrainsAndOilSeedsFurtherSubProduct>(further) {
                Ok(f) => Ok(AgriculturalSubProduct::GrainsAndOilSeeds(f)),
                Err(e) => Err(e),
            }
        } else if sub_product == "SOFT"@ {
            match required_further::<SoftsFurtherSubProduct>(further) {
                Ok(f) => Ok(AgriculturalSubProduct::Softs(f)),
                Err(e) => Err(e),
            }
        } else if sub_product == "POTA"@ {
            no_further(AgriculturalSubProduct::Potato, further)
        } else if sub_product == "OOLI"@ {
            match optional_further::<OliveOilFurtherSubProduct>(further) {
                Ok(f) => Ok(AgriculturalSubProduct::OliveOil(f)),
                Err(e) => Err(e),
            }
        } else if sub_product == "DIRY"@ {
            no_further(AgriculturalSubProduct::Dairy, further)
        } else if sub_product == "FRST"@ {
            no_further(AgriculturalSubProduct::Forestry, further)
        } else if sub_product == "SEAF"@ {
            no_further(AgriculturalSubProduct::Seafood, further)
        } else if sub_product == "LSTK"@ {
            no_further(AgriculturalSubProduct::Livestock, further)
        } else if sub_product == "GRIN"@ {
            match optional_further::<GrainFurtherSubProduct>(further) {
                Ok(f) => Ok(AgriculturalSubProduct::Grain(f)),
                Err(e) => Err(e),
            }
        } else {
            Err(ProductError::BadSubProduct)
        }
    }

    fn code(&self) -> (r: &'static str) {
        match self {
            AgriculturalSubProduct::GrainsAndOilSeeds(_) => "GROS",
            AgriculturalSubProduct::Softs(_) => "SOFT",
            AgriculturalSubProduct::Potato => "POTA",
            AgriculturalSubProduct::OliveOil(_) => "OOLI",
            AgriculturalSubProduct::Dairy => "DIRY",
            AgriculturalSubProduct::Forestry => "FRST",
            AgriculturalSubProduct::Seafood => "SEAF",
            AgriculturalSubProduct::Livestock => "LSTK",
            AgriculturalSubProduct::Grain(_) => "GRIN",
        }
    }

    fn further_code(&self) -> (r: Option<&'static str>) {
        match self {
            AgriculturalSubProduct::GrainsAndOilSeeds(f) => Some(f.code()),
            AgriculturalSubProduct::Softs(f) => Some(f.code()),
            AgriculturalSubProduct::Potato => None,
            AgriculturalSubProduct::OliveOil(Some(f)) => Some(f.code()),
            AgriculturalSubProduct::OliveOil(None) => None,
            AgriculturalSubProduct::Dairy => None,
            AgriculturalSubProduct::Forestry => None,
            AgriculturalSubProduct::Seafood => None,
            AgriculturalSubProduct::Livestock => None,
            AgriculturalSubProduct::Grain(Some(f)) => Some(f.code()),
            AgriculturalSubProduct::Grain(None) => None,
        }
    }

    fn try_from_codes(sub_product: &str, further_sub_product: Option<&str>) -> (r: Result<Self, ProductError>) {
        if str_eq(sub_product, "GROS") {
            with_fsp_or_err(further_sub_product, Self::grains_and_oil_seeds)
        } else if str_eq(sub_product, "SOFT") {
            with_fsp_or_err(further_sub_product, Self::softs)
        } else if str_eq(sub_product, "POTA") {
            without_fsp_or_err(AgriculturalSubProduct::Potato, further_sub_product)
        } else if str_eq(sub_product, "OOLI") {
            match optional_fsp::<OliveOilFurtherSubProduct>(further_sub_product) {
                Ok(f) => Ok(AgriculturalSubProduct::OliveOil(f)),
                Err(e) => Err(e),
            }
        } else if str_eq(sub_product, "DIRY") {
            without_fsp_or_err(AgriculturalSubProduct::Dairy, further_sub_product)
        } else if str_eq(sub_product, "FRST") {
            without_fsp_or_err(AgriculturalSubProduct::Forestry, further_sub_product)
        } else if str_eq(sub_product, "SEAF") {
            without_fsp_or_err(AgriculturalSubProduct::Seafood, further_sub_product)
        } else if str_eq(sub_product, "LSTK") {
            without_fsp_or_err(AgriculturalSubProduct::Livestock, further_sub_product)
        } else if str_eq(sub_product, "GRIN") {
            match optional_fsp::<GrainFurtherSubProduct>(further_sub_product) {
                Ok(f) => Ok(AgriculturalSubProduct::Grain(f)),
                Err(e) => Err(e),
            }
        } else {
            Err(ProductError::BadSubProduct)
        }
    }

    proof fn lemma_decode_codes(v: Self) {
        reveal_strlit("GROS");
        reveal_strlit("SOFT");
        reveal_strlit("POTA");
        reveal_strlit("OOLI");
        reveal_strlit("DIRY");
        reveal_strlit("FRST");
        reveal_strlit("SEAF");
        reveal_strlit("LSTK");
        reveal_strlit("GRIN");
        assert("GROS"@[0] == 'G' && "GROS"@[2] == 'O');
        assert("SOFT"@[0] == 'S' && "SOFT"@[2] == 'F');
        assert("POTA"@[0] == 'P' && "POTA"@[2] == 'T');
        assert("OOLI"@[0] == 'O' && "OOLI"@[2] == 'L');
        assert("DIRY"@[0] == 'D' && "DIRY"@[2] == 'R');
        assert("FRST"@[0] == 'F' && "FRST"@[2] == 'S');
        assert("SEAF"@[0] == 'S' && "SEAF"@[2] == 'A');
        assert("LSTK"@[0] == 'L' && "LSTK"@[2] == 'T');
        assert("GRIN"@[0] == 'G' && "GRIN"@[2] == 'I');
        match v {
            AgriculturalSubProduct::GrainsAndOilSeeds(f) => {
                lemma_value_of_code(f);
            },
            AgriculturalSubProduct::Softs(f) => {
                lemma_value_of_code(f);
            },
            AgriculturalSubProduct::Potato => {},
            AgriculturalSubProduct::OliveOil(Some(f)) => {
                lemma_value_of_code(f);
            },
            AgriculturalSubProduct::OliveOil(None) => {},
            AgriculturalSubProduct::Dairy => {},
            AgriculturalSubProduct::Forestry => {},
            AgriculturalSubProduct::Seafood => {},
            AgriculturalSubProduct::Livestock => {},
            AgriculturalSubProduct::Grain(Some(f)) => {
                lemma_value_of_code(f);
            },
            AgriculturalSubProduct::Grain(None) => {},
        }
    }

    proof fn lemma_codes_decoded(sub_product: Seq<char>, further: Option<Seq<char>>) {
        if let Some(code) = further {
            lemma_code_of_value::<GrainFurtherSubProduct>(code);
            lemma_code_of_value::<GrainsAndOilSeedsFurtherSubProduct>(code);
            lemma_code_of_value::<OliveOilFurtherSubProduct>(code);
            lemma_code_of_value::<SoftsFurtherSubProduct>(code);
        }
    }
}

/// Sub-products of energy commodities.
#[derive(Debug, Clone, Copy, PartialEq, Eq, Structural)]
pub enum EnergySubProduct {
    /// Written `ELEC`; a further code is mandatory.
    Electricity(ElectricityFurtherSubProduct),
    /// Written `NGAS`; a further code is optional.
    NaturalGas(Option<NaturalGasFurtherSubProduct>),
    /// Written `OILP`; a further code is optional.
    Oil(Option<OilFurtherSubProduct>),
    /// Written `COAL`; takes no further code.
    Coal,
    /// Written `INRG`; takes no further code.
    InterEnergy,
    /// Written `RNNG`; takes no further code.
    RenewableEnergy,
    /// Written `LGHT`; takes no further code.
    LightEnds,
    /// Written `DIST`; takes no further code.
    Distillates,
}

impl DeepView for EnergySubProduct {
    type V = EnergySubProduct;

    open spec fn deep_view(&self) -> EnergySubProduct {
        *self
    }
}

impl EnergySubProduct {
    /// The sub-product `ELEC` with the further sub-product that `code` is written for.
    fn electricity(code: &str) -> (r: Result<Self, ProductError>)
        ensures
            r == match value_of::<ElectricityFurtherSubProduct>(code@) {
                Some(f) => Ok(EnergySubProduct::Electricity(f)),
                None => Err(ProductError::BadSubProduct),
            },
    {
        let parsed = ElectricityFurtherSubProduct::from_code(code);
        proof {
            lemma_value_of_parsed(code@, parsed);
        }
        match parsed {
            Some(f) => Ok(EnergySubProduct::Electricity(f)),
            None => Err(ProductError::BadSubProduct),
        }
    }
}

impl SubProduct for EnergySubProduct {
    open spec fn code_of(self) -> Seq<char> {
        match self {
            EnergySubProduct::Electricity(_) => "ELEC"@,
            EnergySubProduct::NaturalGas(_) => "NGAS"@,
            EnergySubProduct::Oil(_) => "OILP"@,
            EnergySubProduct::Coal => "COAL"@,
            EnergySubProduct::InterEnergy => "INRG"@,
            EnergySubProduct::RenewableEnergy => "RNNG"@,
            EnergySubProduct::LightEnds => "LGHT"@,
            EnergySubProduct::Distillates => "DIST"@,
        }
    }

    open spec fn further_code_of(self) -> Option<Seq<char>> {
        match self {
            EnergySubProduct::Electricity(f) => Some(f.code_of()),
            EnergySubProduct::NaturalGas(Some(f)) => Some(f.code_of()),
            EnergySubProduct::NaturalGas(None) => None,
            EnergySubProduct::Oil(Some(f)) => Some(f.code_of()),
            EnergySubProduct::Oil(None) => None,
            EnergySubProduct::Coal => None,
            EnergySubProduct::InterEnergy => None,
            EnergySubProduct::RenewableEnergy => None,
            EnergySubProduct::LightEnds => None,
            EnergySubProduct::Distillates => None,
        }
    }

    open spec fn decode(sub_product: Seq<char>, further: Option<Seq<char>>) -> Result<Self, ProductError> {
        if sub_product == "ELEC"@ {
            match required_further::<ElectricityFurtherSubProduct>(further) {
                Ok(f) => Ok(EnergySubProduct::Electricity(f)),
                Err(e) => Err(e),
            }
        } else if sub_product == "NGAS"@ {
            match optional_further::<NaturalGasFurtherSubProduct>(further) {
                Ok(f) => Ok(EnergySubProduct::NaturalGas(f)),
                Err(e) => Err(e),
            }
        } else if sub_product == "OILP"@ {
            match optional_further::<OilFurtherSubProduct>(further) {
                Ok(f) => Ok(EnergySubProduct::Oil(f)),
                Err(e) => Err(e),
            }
        } else if sub_product == "COAL"@ {
            no_further(EnergySubProduct::Coal, further)
        } else if sub_product == "INRG"@ {
            no_further(EnergySubProduct::InterEnergy, further)
        } else if sub_product == "RNNG"@ {
            no_further(EnergySubProduct::RenewableEnergy, further)
        } else if sub_product == "LGHT"@ {
            no_further(EnergySubProduct::LightEnds, further)
        } else if sub_product == "DIST"@ {
            no_further(EnergySubProduct::Distillates, further)
        } else {
            Err(ProductError::BadSubProduct)
        }
    }

    fn code(&self) -> (r: &'static str) {
        match self {
            EnergySubProduct::Electricity(_) => "ELEC",
            EnergySubProduct::NaturalGas(_) => "NGAS",
            EnergySubProduct::Oil(_) => "OILP",
            EnergySubProduct::Coal => "COAL",
            EnergySubProduct::InterEnergy => "INRG",
            EnergySubProduct::RenewableEnergy => "RNNG",
            EnergySubProduct::LightEnds => "LGHT",
            EnergySubProduct::Distillates => "DIST",
        }
    }

    fn further_code(&self) -> (r: Option<&'static str>) {
        match self {
            EnergySubProduct::Electricity(f) => Some(f.code()),
            EnergySubProduct::NaturalGas(Some(f)) => Some(f.code()),
            EnergySubProduct::NaturalGas(None) => None,
            EnergySubProduct::Oil(Some(f)) => Some(f.code()),
            EnergySubProduct::Oil(None) => None,
            EnergySubProduct::Coal => None,
            EnergySubProduct::InterEnergy => None,
            EnergySubProduct::RenewableEnergy => None,
            EnergySubProduct::LightEnds => None,
            EnergySubProduct::Distillates => None,
        }
    }

    fn try_from_codes(sub_product: &str, further_sub_product: Option<&str>) -> (r: Result<Self, ProductError>) {
        if str_eq(sub_product, "ELEC") {
            with_fsp_or_err(further_sub_product, Self::electricity)
        } else if str_eq(sub_product, "NGAS") {
            match optional_fsp::<NaturalGasFurtherSubProduct>(further_sub_product) {
                Ok(f) => Ok(EnergySubProduct::NaturalGas(f)),
                Err(e) => Err(e),
            }
        } else if str_eq(sub_product, "OILP") {
            match optional_fsp::<OilFurtherSubProduct>(further_sub_product) {
                Ok(f) => Ok(EnergySubProduct::Oil(f)),
                Err(e) => Err(e),
            }
        } else if str_eq(sub_product, "COAL") {
            without_fsp_or_err(EnergySubProduct::Coal, further_sub_product)
        } else if str_eq(sub_product, "INRG") {
            without_fsp_or_err(EnergySubProduct::InterEnergy, further_sub_product)
        } else if str_eq(sub_product, "RNNG") {
            without_fsp_or_err(EnergySubProduct::RenewableEnergy, further_sub_product)
        } else if str_eq(sub_product, "LGHT") {
            without_fsp_or_err(EnergySubProduct::LightEnds, further_sub_product)
        } else if str_eq(sub_product, "DIST") {
            without_fsp_or_err(EnergySubProduct::Distillates, further_sub_product)
        } else {
            Err(ProductError::BadSubProduct)
        }
    }

    proof fn lemma_decode_codes(v: Self) {
        reveal_strlit("ELEC");
        reveal_strlit("NGAS");
        reveal_strlit("OILP");
        reveal_strlit("COAL");
        reveal_strlit("INRG");
        reveal_strlit("RNNG");
        reveal_strlit("LGHT");
        reveal_strlit("DIST");
        assert("ELEC"@[0] == 'E');
        assert("NGAS"@[0] == 'N');
        assert("OILP"@[0] == 'O');
        assert("COAL"@[0] == 'C');
        assert("INRG"@[0] == 'I');
        assert("RNNG"@[0] == 'R');
        assert("LGHT"@[0] == 'L');
        assert("DIST"@[0] == 'D');
        match v {
            EnergySubProduct::Electricity(f) => {
                lemma_value_of_code(f);
            },
            EnergySubProduct::NaturalGas(Some(f)) => {
                lemma_value_of_code(f);
            },
            EnergySubProduct::NaturalGas(None) => {},
            EnergySubProduct::Oil(Some(f)) => {
                lemma_value_of_code(f);
            },
            EnergySubProduct::Oil(None) => {},
            EnergySubProduct::Coal => {},
            EnergySubProduct::InterEnergy => {},
            EnergySubProduct::RenewableEnergy => {},
            EnergySubProduct::LightEnds => {},
            EnergySubProduct::Distillates => {},
        }
    }

    proof fn lemma_codes_decoded(sub_product: Seq<char>, further: Option<Seq<char>>) {
        if let Some(code) = further {
            lemma_code_of_value::<ElectricityFurtherSubProduct>(code);
            lemma_code_of_value::<NaturalGasFurtherSubProduct>(code);
            lemma_code_of_value::<OilFurtherSubProduct>(code);
        }
    }
}

/// Sub-products of environmental commodities.
#[derive(Debug, Clone, Copy, PartialEq, Eq, Structural)]
pub enum EnvironmentalSubProduct {
    /// Written `EMIS`; a further code is optional.
    Emissions(Option<EmissionsFurtherSubProduct>),
    /// Written `WTHR`; takes no further code.
    Weather,
    /// Written `CRBR`; takes no further code.
    CarbonRelated,
}

impl DeepView for EnvironmentalSubProduct {
    type V = EnvironmentalSubProduct;

    open spec fn deep_view(&self) -> EnvironmentalSubProduct {
        *self
    }
}

impl SubProduct for EnvironmentalSubProduct {
    open spec fn code_of(self) -> Seq<char> {
        match self {
            EnvironmentalSubProduct::Emissions(_) => "EMIS"@,
            EnvironmentalSubProduct::Weather => "WTHR"@,
            EnvironmentalSubProduct::CarbonRelated => "CRBR"@,
        }
    }

    open spec fn further_code_of(self) -> Option<Seq<char>> {
        match self {
            EnvironmentalSubProduct::Emissions(Some(f)) => Some(f.code_of()),
            EnvironmentalSubProduct::Emissions(None) => None,
            EnvironmentalSubProduct::Weather => None,
            EnvironmentalSubProduct::CarbonRelated => None,
        }
    }

    open spec fn decode(sub_product: Seq<char>, further: Option<Seq<char>>) -> Result<Self, ProductError> {
        if sub_product == "EMIS"@ {
            match optional_further::<EmissionsFurtherSubProduct>(further) {
                Ok(f) => Ok(EnvironmentalSubProduct::Emissions(f)),
                Err(e) => Err(e),
            }
        } else if sub_product == "WTHR"@ {
            no_further(EnvironmentalSubProduct::Weather, further)
        } else if sub_product == "CRBR"@ {
            no_further(EnvironmentalSubProduct::CarbonRelated, further)
        } else {
            Err(ProductError::BadSubProduct)
        }
    }

    fn code(&self) -> (r: &'static str) {
        match self {
            EnvironmentalSubProduct::Emissions(_) => "EMIS",
            EnvironmentalSubProduct::Weather => "WTHR",
            EnvironmentalSubProduct::CarbonRelated => "CRBR",
        }
    }

    fn further_code(&self) -> (r: Option<&'static str>) {
        match self {
            EnvironmentalSubProduct::Emissions(Some(f)) => Some(f.code()),
            EnvironmentalSubProduct::Emissions(None) => None,
            EnvironmentalSubProduct::Weather => None,
            EnvironmentalSubProduct::CarbonRelated => None,
        }
    }

    fn try_from_codes(sub_product: &str, further_sub_product: Option<&str>) -> (r: Result<Self, ProductError>) {
        if str_eq(sub_product, "EMIS") {
            match optional_fsp::<EmissionsFurtherSubProduct>(further_sub_product) {
                Ok(f) => Ok(EnvironmentalSubProduct::Emissions(f)),
                Err(e) => Err(e),
            }
        } else if str_eq(sub_product, "WTHR") {
            without_fsp_or_err(EnvironmentalSubProduct::Weather, further_sub_product)
        } else if str_eq(sub_product, "CRBR") {
            without_fsp_or_err(EnvironmentalSubProduct::CarbonRelated, further_sub_product)
        } else {
            Err(ProductError::BadSubProduct)
        }
    }

    proof fn lemma_decode_codes(v: Self) {
        reveal_strlit("EMIS");
        reveal_strlit("WTHR");
        reveal_strlit("CRBR");
        assert("EMIS"@[0] == 'E');
        assert("WTHR"@[0] == 'W');
        assert("CRBR"@[0] == 'C');
        match v {
            EnvironmentalSubProduct::Emissions(Some(f)) => {
                lemma_value_of_code(f);
            },
            EnvironmentalSubProduct::Emissions(None) => {},
            EnvironmentalSubProduct::Weather => {},
            EnvironmentalSubProduct::CarbonRelated => {},
        }
    }

    proof fn lemma_codes_decoded(sub_product: Seq<char>, further: Option<Seq<char>>) {
        if let Some(code) = further {
            lemma_code_of_value::<EmissionsFurtherSubProduct>(code);
        }
    }
}

/// Sub-products of freight.
#[derive(Debug, Clone, Copy, PartialEq, Eq, Structural)]
pub enum FreightSubProduct {
    /// Written `WETF`; a further code is optional.
    Wet(Option<WetFreightFurtherSubProduct>),
    /// Written `DRYF`; a further code is optional.
    Dry(Option<DryFreightFurtherSubProduct>),
    /// Written `CSHP`; takes no further code.
    ContainerShips,
}

impl DeepView for FreightSubProduct {
    type V = FreightSubProduct;

    open spec fn deep_view(&self) -> FreightSubProduct {
        *self
    }
}

impl SubProduct for FreightSubProduct {
    open spec fn code_of(self) -> Seq<char> {
        match self {
            FreightSubProduct::Wet(_) => "WETF"@,
            FreightSubProduct::Dry(_) => "DRYF"@,
            FreightSubProduct::ContainerShips => "CSHP"@,
        }
    }

    open spec fn further_code_of(self) -> Option<Seq<char>> {
        match self {
            FreightSubProduct::Wet(Some(f)) => Some(f.code_of()),
            FreightSubProduct::Wet(None) => None,
            FreightSubProduct::Dry(Some(f)) => Some(f.code_of()),
            FreightSubProduct::Dry(None) => None,
            FreightSubProduct::ContainerShips => None,
        }
    }

    open spec fn decode(sub_product: Seq<char>, further: Option<Seq<char>>) -> Result<Self, ProductError> {
        if sub_product == "WETF"@ {
            match optional_further::<WetFreightFurtherSubProduct>(further) {
                Ok(f) => Ok(FreightSubProduct::Wet(f)),
                Err(e) => Err(e),
            }
        } else if sub_product == "DRYF"@ {
            match optional_further::<DryFreightFurtherSubProduct>(further) {
                Ok(f) => Ok(FreightSubProduct::Dry(f)),
                Err(e) => Err(e),
            }
        } else if sub_product == "CSHP"@ {
            no_further(FreightSubProduct::ContainerShips, further)
        } else {
            Err(ProductError::BadSubProduct)
        }
    }

    fn code(&self) -> (r: &'static str) {
        match self {
            FreightSubProduct::Wet(_) => "WETF",
            FreightSubProduct::Dry(_) => "DRYF",
            FreightSubProduct::ContainerShips => "CSHP",
        }
    }

    fn further_code(&self) -> (r: Option<&'static str>) {
        match self {
            FreightSubProduct::Wet(Some(f)) => Some(f.code()),
            FreightSubProduct::Wet(None) => None,
            FreightSubProduct::Dry(Some(f)) => Some(f.code()),
            FreightSubProduct::Dry(None) => None,
            FreightSubProduct::ContainerShips => None,
        }
    }

    fn try_from_codes(sub_product: &str, further_sub_product: Option<&str>) -> (r: Result<Self, ProductError>) {
        if str_eq(sub_product, "WETF") {
            match optional_fsp::<WetFreightFurtherSubProduct>(further_sub_product) {
                Ok(f) => Ok(FreightSubProduct::Wet(f)),
                Err(e) => Err(e),
            }
        } else if str_eq(sub_product, "DRYF") {
            match optional_fsp::<DryFreightFurtherSubProduct>(further_sub_product) {
                Ok(f) => Ok(FreightSubProduct::Dry(f)),
                Err(e) => Err(e),
            }
        } else if str_eq(sub_product, "CSHP") {
            without_fsp_or_err(FreightSubProduct::ContainerShips, further_sub_product)
        } else {
            Err(ProductError::BadSubProduct)
        }
    }

    proof fn lemma_decode_codes(v: Self) {
        reveal_strlit("WETF");
        reveal_strlit("DRYF");
        reveal_strlit("CSHP");
        assert("WETF"@[0] == 'W');
        assert("DRYF"@[0] == 'D');
        assert("CSHP"@[0] == 'C');
        match v {
            FreightSubProduct::Wet(Some(f)) => {
                lemma_value_of_code(f);
            },
            FreightSubProduct::Wet(None) => {},
            FreightSubProduct::Dry(Some(f)) => {
                lemma_value_of_code(f);
            },
            FreightSubProduct::Dry(None) => {},
            FreightSubProduct::ContainerShips => {},
        }
    }

    proof fn lemma_codes_decoded(sub_product: Seq<char>, further: Option<Seq<char>>) {
        if let Some(code) = further {
            lemma_code_of_value::<DryFreightFurtherSubProduct>(code);
            lemma_code_of_value::<WetFreightFurtherSubProduct>(code);
        }
    }
}

/// Sub-products of fertilizer.
#[derive(Debug, Clone, Copy, PartialEq, Eq, Structural)]
pub enum FertilizerSubProduct {
    /// Written `AMMO`; takes no further code.
    Ammonia,
    /// Written `DAPH`; takes no further code.
    Dap,
    /// Written `PTSH`; takes no further code.
    Potash,
    /// Written `SLPH`; takes no further code.
    Sulphur,
    /// Written `UREA`; takes no further code.
    Urea,
    /// Written `UAAN`; takes no further code.
    Uan,
}

impl DeepView for FertilizerSubProduct {
    type V = FertilizerSubProduct;

    open spec fn deep_view(&self) -> FertilizerSubProduct {
        *self
    }
}

impl SubProduct for FertilizerSubProduct {
    open spec fn code_of(self) -> Seq<char> {
        match self {
            FertilizerSubProduct::Ammonia => "AMMO"@,
            FertilizerSubProduct::Dap => "DAPH"@,
            FertilizerSubProduct::Potash => "PTSH"@,
            FertilizerSubProduct::Sulphur => "SLPH"@,
            FertilizerSubProduct::Urea => "UREA"@,
            FertilizerSubProduct::Uan => "UAAN"@,
        }
    }

    open spec fn further_code_of(self) -> Option<Seq<char>> {
        match self {
            FertilizerSubProduct::Ammonia => None,
            FertilizerSubProduct::Dap => None,
            FertilizerSubProduct::Potash => None,
            FertilizerSubProduct::Sulphur => None,
            FertilizerSubProduct::Urea => None,
            FertilizerSubProduct::Uan => None,
        }
    }

    open spec fn decode(sub_product: Seq<char>, further: Option<Seq<char>>) -> Result<Self, ProductError> {
        if sub_product == "AMMO"@ {
            no_further(FertilizerSubProduct::Ammonia, further)
        } else if sub_product == "DAPH"@ {
            no_further(FertilizerSubProduct::Dap, further)
        } else if sub_product == "PTSH"@ {
            no_further(FertilizerSubProduct::Potash, further)
        } else if sub_product == "SLPH"@ {
            no_further(FertilizerSubProduct::Sulphur, further)
        } else if sub_product == "UREA"@ {
            no_further(FertilizerSubProduct::Urea, further)
        } else if sub_product == "UAAN"@ {
            no_further(FertilizerSubProduct::Uan, further)
        } else {
            Err(ProductError::BadSubProduct)
        }
    }

    fn code(&self) -> (r: &'static str) {
        match self {
            FertilizerSubProduct::Ammonia => "AMMO",
            FertilizerSubProduct::Dap => "DAPH",
            FertilizerSubProduct::Potash => "PTSH",
            FertilizerSubProduct::Sulphur => "SLPH",
            FertilizerSubProduct::Urea => "UREA",
            FertilizerSubProduct::Uan => "UAAN",
        }
    }

    fn further_code(&self) -> (r: Option<&'static str>) {
        match self {
            FertilizerSubProduct::Ammonia => None,
            FertilizerSubProduct::Dap => None,
            FertilizerSubProduct::Potash => None,
            FertilizerSubProduct::Sulphur => None,
            FertilizerSubProduct::Urea => None,
            FertilizerSubProduct::Uan => None,
        }
    }

    fn try_from_codes(sub_product: &str, further_sub_product: Option<&str>) -> (r: Result<Self, ProductError>) {
        if str_eq(sub_product, "AMMO") {
            without_fsp_or_err(FertilizerSubProduct::Ammonia, further_sub_product)
        } else if str_eq(sub_product, "DAPH") {
            without_fsp_or_err(FertilizerSubProduct::Dap, further_sub_product)
        } else if str_eq(sub_product, "PTSH") {
            without_fsp_or_err(FertilizerSubProduct::Potash, further_sub_product)
        } else if str_eq(sub_product, "SLPH") {
            without_fsp_or_err(FertilizerSubProduct::Sulphur, further_sub_product)
        } else if str_eq(sub_product, "UREA") {
            without_fsp_or_err(FertilizerSubProduct::Urea, further_sub_product)
        } else if str_eq(sub_product, "UAAN") {
            without_fsp_or_err(FertilizerSubProduct::Uan, further_sub_product)
        } else {
            Err(ProductError::BadSubProduct)
        }
    }

    proof fn lemma_decode_codes(v: Self) {
        reveal_strlit("AMMO");
        reveal_strlit("DAPH");
        reveal_strlit("PTSH");
        reveal_strlit("SLPH");
        reveal_strlit("UREA");
        reveal_strlit("UAAN");
        assert("AMMO"@[0] == 'A' && "AMMO"@[1] == 'M');
        assert("DAPH"@[0] == 'D' && "DAPH"@[1] == 'A');
        assert("PTSH"@[0] == 'P' && "PTSH"@[1] == 'T');
        assert("SLPH"@[0] == 'S' && "SLPH"@[1] == 'L');
        assert("UREA"@[0] == 'U' && "UREA"@[1] == 'R');
        assert("UAAN"@[0] == 'U' && "UAAN"@[1] == 'A');
        match v {
            FertilizerSubProduct::Ammonia => {},
            FertilizerSubProduct::Dap => {},
            FertilizerSubProduct::Potash => {},
            FertilizerSubProduct::Sulphur => {},
            FertilizerSubProduct::Urea => {},
            FertilizerSubProduct::Uan => {},
        }
    }

    proof fn lemma_codes_decoded(sub_product: Seq<char>, further: Option<Seq<char>>) {
    }
}

/// Sub-products of industrial products.
#[derive(Debug, Clone, Copy, PartialEq, Eq, Structural)]
pub enum IndustrialProductsSubProduct {
    /// Written `CSTR`; takes no further code.
    Construction,
    /// Written `MFTG`; takes no further code.
    Manufacturing,
}

impl DeepView for IndustrialProductsSubProduct {
    type V = IndustrialProductsSubProduct;

    open spec fn deep_view(&self) -> IndustrialProductsSubProduct {
        *self
    }
}

impl SubProduct for IndustrialProductsSubProduct {
    open spec fn code_of(self) -> Seq<char> {
        match self {
            IndustrialProductsSubProduct::Construction => "CSTR"@,
            IndustrialProductsSubProduct::Manufacturing => "MFTG"@,
        }
    }

    open spec fn further_code_of(self) -> Option<Seq<char>> {
        match self {
            IndustrialProductsSubProduct::Construction => None,
            IndustrialProductsSubProduct::Manufacturing => None,
        }
    }

    open spec fn decode(sub_product: Seq<char>, further: Option<Seq<char>>) -> Result<Self, ProductError> {
        if sub_product == "CSTR"@ {
            no_further(IndustrialProductsSubProduct::Construction, further)
        } else if sub_product == "MFTG"@ {
            no_further(IndustrialProductsSubProduct::Manufacturing, further)
        } else {
            Err(ProductError::BadSubProduct)
        }
    }

    fn code(&self) -> (r: &'static str) {
        match self {
            IndustrialProductsSubProduct::Construction => "CSTR",
            IndustrialProductsSubProduct::Manufacturing => "MFTG",
        }
    }

    fn further_code(&self) -> (r: Option<&'static str>) {
        match self {
            IndustrialProductsSubProduct::Construction => None,
            IndustrialProductsSubProduct::Manufacturing => None,
        }
    }

    fn try_from_codes(sub_product: &str, further_sub_product: Option<&str>) -> (r: Result<Self, ProductError>) {
        if str_eq(sub_product, "CSTR") {
            without_fsp_or_err(IndustrialProductsSubProduct::Construction, further_sub_product)
        } else if str_eq(sub_product, "MFTG") {
            without_fsp_or_err(IndustrialProductsSubProduct::Manufacturing, further_sub_product)
        } else {
            Err(ProductError::BadSubProduct)
        }
    }

    proof fn lemma_decode_codes(v: Self) {
        reveal_strlit("CSTR");
        reveal_strlit("MFTG");
        assert("CSTR"@[0] == 'C');
        assert("MFTG"@[0] == 'M');
        match v {
            IndustrialProductsSubProduct::Construction => {},
            IndustrialProductsSubProduct::Manufacturing => {},
        }
    }

    proof fn lemma_codes_decoded(sub_product: Seq<char>, further: Option<Seq<char>>) {
    }
}

/// Sub-products of metals.
#[derive(Debug, Clone, Copy, PartialEq, Eq, Structural)]
pub enum MetalsSubProduct {
    /// Written `NPRM`; a further code is mandatory.
    NonPrecious(NonPreciousMetalsFurtherSubProduct),
    /// Written `PRME`; a further code is mandatory.
    Precious(PreciousMetalsFurtherSubProduct),
}

impl DeepView for MetalsSubProduct {
    type V = MetalsSubProduct;

    open spec fn deep_view(&self) -> MetalsSubProduct {
        *self
    }
}

impl MetalsSubProduct {
    /// The sub-product `NPRM` with the further sub-product that `code` is written for.
    fn non_precious(code: &str) -> (r: Result<Self, ProductError>)
        ensures
            r == match value_of::<NonPreciousMetalsFurtherSubProduct>(code@) {
                Some(f) => Ok(MetalsSubProduct::NonPrecious(f)),
                None => Err(ProductError::BadSubProduct),
            },
    {
        let parsed = NonPreciousMetalsFurtherSubProduct::from_code(code);
        proof {
            lemma_value_of_parsed(code@, parsed);
        }
        match parsed {
            Some(f) => Ok(MetalsSubProduct::NonPrecious(f)),
            None => Err(ProductError::BadSubProduct),
        }
    }

    /// The sub-product `PRME` with the further sub-product that `code` is written for.
    fn precious(code: &str) -> (r: Result<Self, ProductError>)
        ensures
            r == match value_of::<PreciousMetalsFurtherSubProduct>(code@) {
                Some(f) => Ok(MetalsSubProduct::Precious(f)),
                None => Err(ProductError::BadSubProduct),
            },
    {
        let parsed = PreciousMetalsFurtherSubProduct::from_code(code);
        proof {
            lemma_value_of_parsed(code@, parsed);
        }
        match parsed {
            Some(f) => Ok(MetalsSubProduct::Precious(f)),
            None => Err(ProductError::BadSubProduct),
        }
    }
}

impl SubProduct for MetalsSubProduct {
    open spec fn code_of(self) -> Seq<char> {
        match self {
            MetalsSubProduct::NonPrecious(_) => "NPRM"@,
            MetalsSubProduct::Precious(_) => "PRME"@,
        }
    }

    open spec fn further_code_of(self) -> Option<Seq<char>> {
        match self {
            MetalsSubProduct::NonPrecious(f) => Some(f.code_of()),
            MetalsSubProduct::Precious(f) => Some(f.code_of()),
        }
    }

    open spec fn decode(sub_product: Seq<char>, further: Option<Seq<char>>) -> Result<Self, ProductError> {
        if sub_product == "NPRM"@ {
            match required_further::<NonPreciousMetalsFurtherSubProduct>(further) {
                Ok(f) => Ok(MetalsSubProduct::NonPrecious(f)),
                Err(e) => Err(e),
            }
        } else if sub_product == "PRME"@ {
            match required_further::<PreciousMetalsFurtherSubProduct>(further) {
                Ok(f) => Ok(MetalsSubProduct::Precious(f)),
                Err(e) => Err(e),
            }
        } else {
            Err(ProductError::BadSubProduct)
        }
    }

    fn code(&self) -> (r: &'static str) {
        match self {
            MetalsSubProduct::NonPrecious(_) => "NPRM",
            MetalsSubProduct::Precious(_) => "PRME",
        }
    }

    fn further_code(&self) -> (r: Option<&'static str>) {
        match self {
            MetalsSubProduct::NonPrecious(f) => Some(f.code()),
            MetalsSubProduct::Precious(f) => Some(f.code()),
        }
    }

    fn try_from_codes(sub_product: &str, further_sub_product: Option<&str>) -> (r: Result<Self, ProductError>) {
        if str_eq(sub_product, "NPRM") {
            with_fsp_or_err(further_sub_product, Self::non_precious)
        } else if str_eq(sub_product, "PRME") {
            with_fsp_or_err(further_sub_product, Self::precious)
        } else {
            Err(ProductError::BadSubProduct)
        }
    }

    proof fn lemma_decode_codes(v: Self) {
        reveal_strlit("NPRM");
        reveal_strlit("PRME");
        assert("NPRM"@[0] == 'N');
        assert("PRME"@[0] == 'P');
        match v {
            MetalsSubProduct::NonPrecious(f) => {
                lemma_value_of_code(f);
            },
            MetalsSubProduct::Precious(f) => {
                lemma_value_of_code(f);
            },
        }
    }

    proof fn lemma_codes_decoded(sub_product: Seq<char>, further: Option<Seq<char>>) {
        if let Some(code) = further {
            lemma_code_of_value::<NonPreciousMetalsFurtherSubProduct>(code);
            lemma_code_of_value::<PreciousMetalsFurtherSubProduct>(code);
        }
    }
}

/// Sub-products of paper.
#[derive(Debug, Clone, Copy, PartialEq, Eq, Structural)]
pub enum PaperSubProduct {
    /// Written `CBRD`; takes no further code.
    Containerboard,
    /// Written `NSPT`; takes no further code.
    Newsprint,
    /// Written `PULP`; takes no further code.
    Pulp,
    /// Written `RCVP`; takes no further code.
    RecoveredPaper,
}

impl DeepView for PaperSubProduct {
    type V = PaperSubProduct;

    open spec fn deep_view(&self) -> PaperSubProduct {
        *self
    }
}

impl SubProduct for PaperSubProduct {
    open spec fn code_of(self) -> Seq<char> {
        match self {
            PaperSubProduct::Containerboard => "CBRD"@,
            PaperSubProduct::Newsprint => "NSPT"@,
            PaperSubProduct::Pulp => "PULP"@,
            PaperSubProduct::RecoveredPaper => "RCVP"@,
        }
    }

    open spec fn further_code_of(self) -> Option<Seq<char>> {
        match self {
            PaperSubProduct::Containerboard => None,
            PaperSubProduct::Newsprint => None,
            PaperSubProduct::Pulp => None,
            PaperSubProduct::RecoveredPaper => None,
        }
    }

    open spec fn decode(sub_product: Seq<char>, further: Option<Seq<char>>) -> Result<Self, ProductError> {
        if sub_product == "CBRD"@ {
            no_further(PaperSubProduct::Containerboard, further)
        } else if sub_product == "NSPT"@ {
            no_further(PaperSubProduct::Newsprint, further)
        } else if sub_product == "PULP"@ {
            no_further(PaperSubProduct::Pulp, further)
        } else if sub_product == "RCVP"@ {
            no_further(PaperSubProduct::RecoveredPaper, further)
        } else {
            Err(ProductError::BadSubProduct)
        }
    }

    fn code(&self) -> (r: &'static str) {
        match self {
            PaperSubProduct::Containerboard => "CBRD",
            PaperSubProduct::Newsprint => "NSPT",
            PaperSubProduct::Pulp => "PULP",
            PaperSubProduct::RecoveredPaper => "RCVP",
        }
    }

    fn further_code(&self) -> (r: Option<&'static str>) {
        match self {
            PaperSubProduct::Containerboard => None,
            PaperSubProduct::Newsprint => None,
            PaperSubProduct::Pulp => None,
            PaperSubProduct::RecoveredPaper => None,
        }
    }

    fn try_from_codes(sub_product: &str, further_sub_product: Option<&str>) -> (r: Result<Self, ProductError>) {
        if str_eq(sub_product, "CBRD") {
            without_fsp_or_err(PaperSubProduct::Containerboard, further_sub_product)
        } else if str_eq(sub_product, "NSPT") {
            without_fsp_or_err(PaperSubProduct::Newsprint, further_sub_product)
        } else if str_eq(sub_product, "PULP") {
            without_fsp_or_err(PaperSubProduct::Pulp, further_sub_product)
        } else if str_eq(sub_product, "RCVP") {
            without_fsp_or_err(PaperSubProduct::RecoveredPaper, further_sub_product)
        } else {
            Err(ProductError::BadSubProduct)
        }
    }

    proof fn lemma_decode_codes(v: Self) {
        reveal_strlit("CBRD");
        reveal_strlit("NSPT");
        reveal_strlit("PULP");
        reveal_strlit("RCVP");
        assert("CBRD"@[0] == 'C');
        assert("NSPT"@[0] == 'N');
        assert("PULP"@[0] == 'P');
        assert("RCVP"@[0] == 'R');
        match v {
            PaperSubProduct::Containerboard => {},
            PaperSubProduct::Newsprint => {},
            PaperSubProduct::Pulp => {},
            PaperSubProduct::RecoveredPaper => {},
        }
    }

    proof fn lemma_codes_decoded(sub_product: Seq<char>, further: Option<Seq<char>>) {
    }
}

/// Sub-products of polypropylene.
#[derive(Debug, Clone, Copy, PartialEq, Eq, Structural)]
pub enum PolypropyleneSubProduct {
    /// Written `PLST`; takes no further code.
    Plastic,
}

impl DeepView for PolypropyleneSubProduct {
    type V = PolypropyleneSubProduct;

    open spec fn deep_view(&self) -> PolypropyleneSubProduct {
        *self
    }
}

impl SubProduct for PolypropyleneSubProduct {
    open spec fn code_of(self) -> Seq<char> {
        match self {
            PolypropyleneSubProduct::Plastic => "PLST"@,
        }
    }

    open spec fn further_code_of(self) -> Option<Seq<char>> {
        match self {
            PolypropyleneSubProduct::Plastic => None,
        }
    }

    open spec fn decode(sub_product: Seq<char>, further: Option<Seq<char>>) -> Result<Self, ProductError> {
        if sub_product == "PLST"@ {
            no_further(PolypropyleneSubProduct::Plastic, further)
        } else {
            Err(ProductError::BadSubProduct)
        }
    }

    fn code(&self) -> (r: &'static str) {
        match self {
            PolypropyleneSubProduct::Plastic => "PLST",
        }
    }

    fn further_code(&self) -> (r: Option<&'static str>) {
        match self {
            PolypropyleneSubProduct::Plastic => None,
        }
    }

    fn try_from_codes(sub_product: &str, further_sub_product: Option<&str>) -> (r: Result<Self, ProductError>) {
        if str_eq(sub_product, "PLST") {
            without_fsp_or_err(PolypropyleneSubProduct::Plastic, further_sub_product)
        } else {
            Err(ProductError::BadSubProduct)
        }
    }

    proof fn lemma_decode_codes(v: Self) {
        match v {
            PolypropyleneSubProduct::Plastic => {},
        }
    }

    proof fn lemma_codes_decoded(sub_product: Seq<char>, further: Option<Seq<char>>) {
    }
}

/// Sub-products of the other C10 derivatives.
#[derive(Debug, Clone, Copy, PartialEq, Eq, Structural)]
pub enum OtherC10SubProduct {
    /// Written `DLVR`; takes no further code.
    Deliverable,
    /// Written `NDLV`; takes no further code.
    NonDeliverable,
}

impl DeepView for OtherC10SubProduct {
    type V = OtherC10SubProduct;

    open spec fn deep_view(&self) -> OtherC10SubProduct {
        *self
    }
}

impl SubProduct for OtherC10SubProduct {
    open spec fn code_of(self) -> Seq<char> {
        match self {
            OtherC10SubProduct::Deliverable => "DLVR"@,
            OtherC10SubProduct::NonDeliverable => "NDLV"@,
        }
    }

    open spec fn further_code_of(self) -> Option<Seq<char>> {
        match self {
            OtherC10SubProduct::Deliverable => None,
            OtherC10SubProduct::NonDeliverable => None,
        }
    }

    open spec fn decode(sub_product: Seq<char>, further: Option<Seq<char>>) -> Result<Self, ProductError> {
        if sub_product == "DLVR"@ {
            no_further(OtherC10SubProduct::Deliverable, further)
        } else if sub_product == "NDLV"@ {
            no_further(OtherC10SubProduct::NonDeliverable, further)
        } else {
            Err(ProductError::BadSubProduct)
        }
    }

    fn code(&self) -> (r: &'static str) {
        match self {
            OtherC10SubProduct::Deliverable => "DLVR",
            OtherC10SubProduct::NonDeliverable => "NDLV",
        }
    }

    fn further_code(&self) -> (r: Option<&'static str>) {
        match self {
            OtherC10SubProduct::Deliverable => None,
            OtherC10SubProduct::NonDeliverable => None,
        }
    }

    fn try_from_codes(sub_product: &str, further_sub_product: Option<&str>) -> (r: Result<Self, ProductError>) {
        if str_eq(sub_product, "DLVR") {
            without_fsp_or_err(OtherC10SubProduct::Deliverable, further_sub_product)
        } else if str_eq(sub_product, "NDLV") {
            without_fsp_or_err(OtherC10SubProduct::NonDeliverable, further_sub_product)
        } else {
            Err(ProductError::BadSubProduct)
        }
    }

    proof fn lemma_decode_codes(v: Self) {
        reveal_strlit("DLVR");
        reveal_strlit("NDLV");
        assert("DLVR"@[0] == 'D');
        assert("NDLV"@[0] == 'N');
        match v {
            OtherC10SubProduct::Deliverable => {},
            OtherC10SubProduct::NonDeliverable => {},
        }
    }

    proof fn lemma_codes_decoded(sub_product: Seq<char>, further: Option<Seq<char>>) {
    }
}

/// Classification of commodity and emission allowance derivatives: a base
/// product, for most of them a sub-product, and for some a further sub-product.
#[derive(Debug, Clone, Copy, PartialEq, Eq, Structural)]
pub enum BaseProduct {
    /// Written `AGRI`; a sub-product code is mandatory.
    Agricultural(AgriculturalSubProduct),
    /// Written `NRGY`; a sub-product code is mandatory.
    Energy(EnergySubProduct),
    /// Written `ENVR`; a sub-product code is mandatory.
    Environmental(EnvironmentalSubProduct),
    /// Written `FRGT`; a sub-product code is mandatory.
    Freight(FreightSubProduct),
    /// Written `FRTL`; a sub-product code is mandatory.
    Fertilizer(FertilizerSubProduct),
    /// Written `INDP`; a sub-product code is mandatory.
    IndustrialProducts(IndustrialProductsSubProduct),
    /// Written `METL`; a sub-product code is mandatory.
    Metals(MetalsSubProduct),
    /// Written `MCEX`; stands alone.
    MultiCommodityExotic,
    /// Written `PAPR`; a sub-product code is mandatory.
    Paper(PaperSubProduct),
    /// Written `POLY`; a sub-product code is mandatory.
    Polypropylene(PolypropyleneSubProduct),
    /// Written `INFL`; stands alone.
    Inflation,
    /// Written `OEST`; stands alone.
    OfficialEconomicStatistics,
    /// Written `OTHC`; a sub-product code is mandatory.
    OtherC10(OtherC10SubProduct),
    /// Written `OTHR`; stands alone.
    Other,
}

impl DeepView for BaseProduct {
    type V = BaseProduct;

    open spec fn deep_view(&self) -> BaseProduct {
        *self
    }
}

impl BaseProduct {
    /// The base product code that is written for the value.
    pub open spec fn code_of(self) -> Seq<char> {
        match self {
            BaseProduct::Agricultural(_) => "AGRI"@,
            BaseProduct::Energy(_) => "NRGY"@,
            BaseProduct::Environmental(_) => "ENVR"@,
            BaseProduct::Freight(_) => "FRGT"@,
            BaseProduct::Fertilizer(_) => "FRTL"@,
            BaseProduct::IndustrialProducts(_) => "INDP"@,
            BaseProduct::Metals(_) => "METL"@,
            BaseProduct::MultiCommodityExotic => "MCEX"@,
            BaseProduct::Paper(_) => "PAPR"@,
            BaseProduct::Polypropylene(_) => "POLY"@,
            BaseProduct::Inflation => "INFL"@,
            BaseProduct::OfficialEconomicStatistics => "OEST"@,
            BaseProduct::OtherC10(_) => "OTHC"@,
            BaseProduct::Other => "OTHR"@,
        }
    }

    /// The sub-product code that is written for the value, if it has a sub-product.
    pub open spec fn sub_code_of(self) -> Option<Seq<char>> {
        match self {
            BaseProduct::Agricultural(s) => Some(s.code_of()),
            BaseProduct::Energy(s) => Some(s.code_of()),
            BaseProduct::Environmental(s) => Some(s.code_of()),
            BaseProduct::Freight(s) => Some(s.code_of()),
            BaseProduct::Fertilizer(s) => Some(s.code_of()),
            BaseProduct::IndustrialProducts(s) => Some(s.code_of()),
            BaseProduct::Metals(s) => Some(s.code_of()),
            BaseProduct::MultiCommodityExotic => None,
            BaseProduct::Paper(s) => Some(s.code_of()),
            BaseProduct::Polypropylene(s) => Some(s.code_of()),
            BaseProduct::Inflation => None,
            BaseProduct::OfficialEconomicStatistics => None,
            BaseProduct::OtherC10(s) => Some(s.code_of()),
            BaseProduct::Other => None,
        }
    }

    /// The further sub-product code that is written for the value, if it has one.
    pub open spec fn further_code_of(self) -> Option<Seq<char>> {
        match self {
            BaseProduct::Agricultural(s) => s.further_code_of(),
            BaseProduct::Energy(s) => s.further_code_of(),
            BaseProduct::Environmental(s) => s.further_code_of(),
            BaseProduct::Freight(s) => s.further_code_of(),
            BaseProduct::Fertilizer(s) => s.further_code_of(),
            BaseProduct::IndustrialProducts(s) => s.further_code_of(),
            BaseProduct::Metals(s) => s.further_code_of(),
            BaseProduct::MultiCommodityExotic => None,
            BaseProduct::Paper(s) => s.further_code_of(),
            BaseProduct::Polypropylene(s) => s.further_code_of(),
            BaseProduct::Inflation => None,
            BaseProduct::OfficialEconomicStatistics => None,
            BaseProduct::OtherC10(s) => s.further_code_of(),
            BaseProduct::Other => None,
        }
    }

    /// The classification that the three codes stand for, or the rule that they break.
    ///
    /// A base product that stands alone takes no sub-product code; every other
    /// base product needs one, and its table decides about the further code. A
    /// base product code outside the table is rejected like any unknown code.
    pub open spec fn decode(
        product: Seq<char>,
        sub_product: Option<Seq<char>>,
        further: Option<Seq<char>>,
    ) -> Result<BaseProduct, ProductError> {
        if product == "AGRI"@ {
            match required_sub::<AgriculturalSubProduct>(sub_product, further) {
                Ok(s) => Ok(BaseProduct::Agricultural(s)),
                Err(e) => Err(e),
            }
        } else if product == "NRGY"@ {
            match required_sub::<EnergySubProduct>(sub_product, further) {
                Ok(s) => Ok(BaseProduct::Energy(s)),
                Err(e) => Err(e),
            }
        } else if product == "ENVR"@ {
            match required_sub::<EnvironmentalSubProduct>(sub_product, further) {
                Ok(s) => Ok(BaseProduct::Environmental(s)),
                Err(e) => Err(e),
            }
        } else if product == "FRGT"@ {
            match required_sub::<FreightSubProduct>(sub_product, further) {
                Ok(s) => Ok(BaseProduct::Freight(s)),
                Err(e) => Err(e),
            }
        } else if product == "FRTL"@ {
            match required_sub::<FertilizerSubProduct>(sub_product, further) {
                Ok(s) => Ok(BaseProduct::Fertilizer(s)),
                Err(e) => Err(e),
            }
        } else if product == "INDP"@ {
            match required_sub::<IndustrialProductsSubProduct>(sub_product, further) {
                Ok(s) => Ok(BaseProduct::IndustrialProducts(s)),
                Err(e) => Err(e),
            }
        } else if product == "METL"@ {
            match required_sub::<MetalsSubProduct>(sub_product, further) {
                Ok(s) => Ok(BaseProduct::Metals(s)),
                Err(e) => Err(e),
            }
        } else if product == "MCEX"@ {
            no_sub(BaseProduct::MultiCommodityExotic, sub_product)
        } else if product == "PAPR"@ {
            match required_sub::<PaperSubProduct>(sub_product, further) {
                Ok(s) => Ok(BaseProduct::Paper(s)),
                Err(e) => Err(e),
            }
        } else if product == "POLY"@ {
            match required_sub::<PolypropyleneSubProduct>(sub_product, further) {
                Ok(s) => Ok(BaseProduct::Polypropylene(s)),
                Err(e) => Err(e),
            }
        } else if product == "INFL"@ {
            no_sub(BaseProduct::Inflation, sub_product)
        } else if product == "OEST"@ {
            no_sub(BaseProduct::OfficialEconomicStatistics, sub_product)
        } else if product == "OTHC"@ {
            match required_sub::<OtherC10SubProduct>(sub_product, further) {
                Ok(s) => Ok(BaseProduct::OtherC10(s)),
                Err(e) => Err(e),
            }
        } else if product == "OTHR"@ {
            no_sub(BaseProduct::Other, sub_product)
        } else {
            Err(ProductError::BadSubProduct)
        }
    }

    /// Decode a base product code with its optional sub-product and further
    /// sub-product codes.
    pub fn try_from_codes(prod: &str, sub_prod: Option<&str>, further_sub_prod: Option<&str>) -> (r: Result<Self, ProductError>)
        ensures
            r == Self::decode(prod@, sub_prod.deep_view(), further_sub_prod.deep_view()),
    {
        if str_eq(prod, "AGRI") {
            match with_sub_or_err::<AgriculturalSubProduct>(sub_prod, further_sub_prod) {
                Ok(s) => Ok(BaseProduct::Agricultural(s)),
                Err(e) => Err(e),
            }
        } else if str_eq(prod, "NRGY") {
            match with_sub_or_err::<EnergySubProduct>(sub_prod, further_sub_prod) {
                Ok(s) => Ok(BaseProduct::Energy(s)),
                Err(e) => Err(e),
            }
        } else if str_eq(prod, "ENVR") {
            match with_sub_or_err::<EnvironmentalSubProduct>(sub_prod, further_sub_prod) {
                Ok(s) => Ok(BaseProduct::Environmental(s)),
                Err(e) => Err(e),
            }
        } else if str_eq(prod, "FRGT") {
            match with_sub_or_err::<FreightSubProduct>(sub_prod, further_sub_prod) {
                Ok(s) => Ok(BaseProduct::Freight(s)),
                Err(e) => Err(e),
            }
        } else if str_eq(prod, "FRTL") {
            match with_sub_or_err::<FertilizerSubProduct>(sub_prod, further_sub_prod) {
                Ok(s) => Ok(BaseProduct::Fertilizer(s)),
                Err(e) => Err(e),
            }
        } else if str_eq(prod, "INDP") {
            match with_sub_or_err::<IndustrialProductsSubProduct>(sub_prod, further_sub_prod) {
                Ok(s) => Ok(BaseProduct::IndustrialProducts(s)),
                Err(e) => Err(e),
            }
        } else if str_eq(prod, "METL") {
            match with_sub_or_err::<MetalsSubProduct>(sub_prod, further_sub_prod) {
                Ok(s) => Ok(BaseProduct::Metals(s)),
                Err(e) => Err(e),
            }
        } else if str_eq(prod, "MCEX") {
            without_sub_or_err(BaseProduct::MultiCommodityExotic, sub_prod)
        } else if str_eq(prod, "PAPR") {
            match with_sub_or_err::<PaperSubProduct>(sub_prod, further_sub_prod) {
                Ok(s) => Ok(BaseProduct::Paper(s)),
                Err(e) => Err(e),
            }
        } else if str_eq(prod, "POLY") {
            match with_sub_or_err::<PolypropyleneSubProduct>(sub_prod, further_sub_prod) {
                Ok(s) => Ok(BaseProduct::Polypropylene(s)),
                Err(e) => Err(e),
            }
        } else if str_eq(prod, "INFL") {
            without_sub_or_err(BaseProduct::Inflation, sub_prod)
        } else if str_eq(prod, "OEST") {
            without_sub_or_err(BaseProduct::OfficialEconomicStatistics, sub_prod)
        } else if str_eq(prod, "OTHC") {
            match with_sub_or_err::<OtherC10SubProduct>(sub_prod, further_sub_prod) {
                Ok(s) => Ok(BaseProduct::OtherC10(s)),
                Err(e) => Err(e),
            }
        } else if str_eq(prod, "OTHR") {
            without_sub_or_err(BaseProduct::Other, sub_prod)
        } else {
            Err(ProductError::BadSubProduct)
        }
    }

    /// The base product code that is written for the value.
    pub fn code(&self) -> (r: &'static str)
        ensures
            r@ == self.code_of(),
    {
        match self {
            BaseProduct::Agricultural(_) => "AGRI",
            BaseProduct::Energy(_) => "NRGY",
            BaseProduct::Environmental(_) => "ENVR",
            BaseProduct::Freight(_) => "FRGT",
            BaseProduct::Fertilizer(_) => "FRTL",
            BaseProduct::IndustrialProducts(_) => "INDP",
            BaseProduct::Metals(_) => "METL",
            BaseProduct::MultiCommodityExotic => "MCEX",
            BaseProduct::Paper(_) => "PAPR",
            BaseProduct::Polypropylene(_) => "POLY",
            BaseProduct::Inflation => "INFL",
            BaseProduct::OfficialEconomicStatistics => "OEST",
            BaseProduct::OtherC10(_) => "OTHC",
            BaseProduct::Other => "OTHR",
        }
    }

    /// The sub-product code that is written for the value, if it has a sub-product.
    pub fn sub_code(&self) -> (r: Option<&'static str>)
        ensures
            r.deep_view() == self.sub_code_of(),
    {
        match self {
            BaseProduct::Agricultural(s) => Some(s.code()),
            BaseProduct::Energy(s) => Some(s.code()),
            BaseProduct::Environmental(s) => Some(s.code()),
            BaseProduct::Freight(s) => Some(s.code()),
            BaseProduct::Fertilizer(s) => Some(s.code()),
            BaseProduct::IndustrialProducts(s) => Some(s.code()),
            BaseProduct::Metals(s) => Some(s.code()),
            BaseProduct::MultiCommodityExotic => None,
            BaseProduct::Paper(s) => Some(s.code()),
            BaseProduct::Polypropylene(s) => Some(s.code()),
            BaseProduct::Inflation => None,
            BaseProduct::OfficialEconomicStatistics => None,
            BaseProduct::OtherC10(s) => Some(s.code()),
            BaseProduct::Other => None,
        }
    }

    /// The further sub-product code that is written for the value, if it has one.
    pub fn further_code(&self) -> (r: Option<&'static str>)
        ensures
            r.deep_view() == self.further_code_of(),
    {
        match self {
            BaseProduct::Agricultural(s) => s.further_code(),
            BaseProduct::Energy(s) => s.further_code(),
            BaseProduct::Environmental(s) => s.further_code(),
            BaseProduct::Freight(s) => s.further_code(),
            BaseProduct::Fertilizer(s) => s.further_code(),
            BaseProduct::IndustrialProducts(s) => s.further_code(),
            BaseProduct::Metals(s) => s.further_code(),
            BaseProduct::MultiCommodityExotic => None,
            BaseProduct::Paper(s) => s.further_code(),
            BaseProduct::Polypropylene(s) => s.further_code(),
            BaseProduct::Inflation => None,
            BaseProduct::OfficialEconomicStatistics => None,
            BaseProduct::OtherC10(s) => s.further_code(),
            BaseProduct::Other => None,
        }
    }

    /// Every classification is what its own codes decode to.
    pub proof fn lemma_decode_codes(v: BaseProduct)
        ensures
            Self::decode(v.code_of(), v.sub_code_of(), v.further_code_of()) == Ok::<BaseProduct, ProductError>(v),
    {
        reveal_strlit("AGRI");
        reveal_strlit("NRGY");
        reveal_strlit("ENVR");
        reveal_strlit("FRGT");
        reveal_strlit("FRTL");
        reveal_strlit("INDP");
        reveal_strlit("METL");
        reveal_strlit("MCEX");
        reveal_strlit("PAPR");
        reveal_strlit("POLY");
        reveal_strlit("INFL");
        reveal_strlit("OEST");
        reveal_strlit("OTHC");
        reveal_strlit("OTHR");
        assert("AGRI"@[0] == 'A' && "AGRI"@[2] == 'R' && "AGRI"@[3] == 'I');
        assert("NRGY"@[0] == 'N' && "NRGY"@[2] == 'G' && "NRGY"@[3] == 'Y');
        assert("ENVR"@[0] == 'E' && "ENVR"@[2] == 'V' && "ENVR"@[3] == 'R');
        assert("FRGT"@[0] == 'F' && "FRGT"@[2] == 'G' && "FRGT"@[3] == 'T');
        assert("FRTL"@[0] == 'F' && "FRTL"@[2] == 'T' && "FRTL"@[3] == 'L');
        assert("INDP"@[0] == 'I' && "INDP"@[2] == 'D' && "INDP"@[3] == 'P');
        assert("METL"@[0] == 'M' && "METL"@[2] == 'T' && "METL"@[3] == 'L');
        assert("MCEX"@[0] == 'M' && "MCEX"@[2] == 'E' && "MCEX"@[3] == 'X');
        assert("PAPR"@[0] == 'P' && "PAPR"@[2] == 'P' && "PAPR"@[3] == 'R');
        assert("POLY"@[0] == 'P' && "POLY"@[2] == 'L' && "POLY"@[3] == 'Y');
        assert("INFL"@[0] == 'I' && "INFL"@[2] == 'F' && "INFL"@[3] == 'L');
        assert("OEST"@[0] == 'O' && "OEST"@[2] == 'S' && "OEST"@[3] == 'T');
        assert("OTHC"@[0] == 'O' && "OTHC"@[2] == 'H' && "OTHC"@[3] == 'C');
        assert("OTHR"@[0] == 'O' && "OTHR"@[2] == 'H' && "OTHR"@[3] == 'R');
        match v {
            BaseProduct::Agricultural(s) => {
                AgriculturalSubProduct::lemma_decode_codes(s);
            },
            BaseProduct::Energy(s) => {
                EnergySubProduct::lemma_decode_codes(s);
            },
            BaseProduct::Environmental(s) => {
                EnvironmentalSubProduct::lemma_decode_codes(s);
            },
            BaseProduct::Freight(s) => {
                FreightSubProduct::lemma_decode_codes(s);
            },
            BaseProduct::Fertilizer(s) => {
                FertilizerSubProduct::lemma_decode_codes(s);
            },
            BaseProduct::IndustrialProducts(s) => {
                IndustrialProductsSubProduct::lemma_decode_codes(s);
            },
            BaseProduct::Metals(s) => {
                MetalsSubProduct::lemma_decode_codes(s);
            },
            BaseProduct::MultiCommodityExotic => {},
            BaseProduct::Paper(s) => {
                PaperSubProduct::lemma_decode_codes(s);
            },
            BaseProduct::Polypropylene(s) => {
                PolypropyleneSubProduct::lemma_decode_codes(s);
            },
            BaseProduct::Inflation => {},
            BaseProduct::OfficialEconomicStatistics => {},
            BaseProduct::OtherC10(s) => {
                OtherC10SubProduct::lemma_decode_codes(s);
            },
            BaseProduct::Other => {},
        }
    }

    /// Codes that decode stand for the classification that they decode to; only
    /// the further code next to a base product that stands alone is not looked at.
    pub proof fn lemma_codes_decoded(product: Seq<char>, sub_product: Option<Seq<char>>, further: Option<Seq<char>>)
        ensures
            match Self::decode(product, sub_product, further) {
                Ok(v) => v.code_of() == product && v.sub_code_of() == sub_product && (sub_product is Some
                    ==> v.further_code_of() == further),
                Err(_) => true,
            },
    {
        if let Some(sp) = sub_product {
            AgriculturalSubProduct::lemma_codes_decoded(sp, further);
            EnergySubProduct::lemma_codes_decoded(sp, further);
            EnvironmentalSubProduct::lemma_codes_decoded(sp, further);
            FertilizerSubProduct::lemma_codes_decoded(sp, further);
            FreightSubProduct::lemma_codes_decoded(sp, further);
            IndustrialProductsSubProduct::lemma_codes_decoded(sp, further);
            MetalsSubProduct::lemma_codes_decoded(sp, further);
            OtherC10SubProduct::lemma_codes_decoded(sp, further);
            PaperSubProduct::lemma_codes_decoded(sp, further);
            PolypropyleneSubProduct::lemma_codes_decoded(sp, further);
        }
    }
}

} // verus!
