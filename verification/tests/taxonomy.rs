//! The commodity classification: which codes decode, and which rule the others break.

use firds::coded::Coded;
use firds::error::ProductError;
use firds::product::{
    optional_fsp, with_fsp_or_err, without_fsp_or_err, AgriculturalSubProduct, BaseProduct,
    ElectricityFurtherSubProduct, EmissionsFurtherSubProduct, EnergySubProduct,
    EnvironmentalSubProduct, FertilizerSubProduct, FreightSubProduct,
    GrainsAndOilSeedsFurtherSubProduct, IndustrialProductsSubProduct, MetalsSubProduct,
    NonPreciousMetalsFurtherSubProduct, OilFurtherSubProduct, OliveOilFurtherSubProduct,
    OtherC10SubProduct, PaperSubProduct, PolypropyleneSubProduct, SubProduct,
    WetFreightFurtherSubProduct,
};

#[test]
fn base_product_that_stands_alone() {
    assert_eq!(BaseProduct::try_from_codes("MCEX", None, None), Ok(BaseProduct::MultiCommodityExotic));
    assert_eq!(BaseProduct::try_from_codes("INFL", None, None), Ok(BaseProduct::Inflation));
    assert_eq!(
        BaseProduct::try_from_codes("OEST", None, None),
        Ok(BaseProduct::OfficialEconomicStatistics)
    );
    assert_eq!(BaseProduct::try_from_codes("OTHR", None, None), Ok(BaseProduct::Other));
}

#[test]
fn sub_product_for_a_base_product_that_stands_alone() {
    assert_eq!(
        BaseProduct::try_from_codes("MCEX", Some("GROS"), None),
        Err(ProductError::BadProduct)
    );
    assert_eq!(
        BaseProduct::try_from_codes("OTHR", Some("DLVR"), None),
        Err(ProductError::BadProduct)
    );
}

#[test]
fn further_code_next_to_a_base_product_that_stands_alone_is_not_looked_at() {
    assert_eq!(BaseProduct::try_from_codes("INFL", None, Some("FWHT")), Ok(BaseProduct::Inflation));
}

#[test]
fn three_levels() {
    assert_eq!(
        BaseProduct::try_from_codes("AGRI", Some("GROS"), Some("FWHT")),
        Ok(BaseProduct::Agricultural(AgriculturalSubProduct::GrainsAndOilSeeds(
            GrainsAndOilSeedsFurtherSubProduct::FeedWheat
        )))
    );
    assert_eq!(
        BaseProduct::try_from_codes("NRGY", Some("OILP"), Some("BRNT")),
        Ok(BaseProduct::Energy(EnergySubProduct::Oil(Some(OilFurtherSubProduct::Brent))))
    );
    assert_eq!(
        BaseProduct::try_from_codes("METL", Some("NPRM"), Some("ZINC")),
        Ok(BaseProduct::Metals(MetalsSubProduct::NonPrecious(
            NonPreciousMetalsFurtherSubProduct::Zinc
        )))
    );
}

#[test]
fn mandatory_further_code_is_missing() {
    assert_eq!(
        BaseProduct::try_from_codes("AGRI", Some("GROS"), None),
        Err(ProductError::NoSubProduct)
    );
    assert_eq!(
        BaseProduct::try_from_codes("NRGY", Some("ELEC"), None),
        Err(ProductError::NoSubProduct)
    );
    assert_eq!(
        BaseProduct::try_from_codes("METL", Some("PRME"), None),
        Err(ProductError::NoSubProduct)
    );
}

#[test]
fn further_code_where_none_is_allowed() {
    assert_eq!(
        BaseProduct::try_from_codes("AGRI", Some("POTA"), Some("X")),
        Err(ProductError::BadSubProduct)
    );
    assert_eq!(
        BaseProduct::try_from_codes("AGRI", Some("POTA"), Some("FWHT")),
        Err(ProductError::BadSubProduct)
    );
    assert_eq!(
        BaseProduct::try_from_codes("AGRI", Some("POTA"), None),
        Ok(BaseProduct::Agricultural(AgriculturalSubProduct::Potato))
    );
}

#[test]
fn optional_further_code() {
    assert_eq!(
        BaseProduct::try_from_codes("AGRI", Some("OOLI"), None),
        Ok(BaseProduct::Agricultural(AgriculturalSubProduct::OliveOil(None)))
    );
    assert_eq!(
        BaseProduct::try_from_codes("AGRI", Some("OOLI"), Some("LAMP")),
        Ok(BaseProduct::Agricultural(AgriculturalSubProduct::OliveOil(Some(
            OliveOilFurtherSubProduct::Lampante
        ))))
    );
    assert_eq!(
        BaseProduct::try_from_codes("AGRI", Some("OOLI"), Some("MWHT")),
        Err(ProductError::BadSubProduct)
    );
    assert_eq!(
        BaseProduct::try_from_codes("ENVR", Some("EMIS"), Some("EUAE")),
        Ok(BaseProduct::Environmental(EnvironmentalSubProduct::Emissions(Some(
            EmissionsFurtherSubProduct::Euae
        ))))
    );
    assert_eq!(
        BaseProduct::try_from_codes("FRGT", Some("WETF"), Some("TNKR")),
        Ok(BaseProduct::Freight(FreightSubProduct::Wet(Some(WetFreightFurtherSubProduct::Tankers))))
    );
}

#[test]
fn sub_product_is_missing() {
    assert_eq!(BaseProduct::try_from_codes("AGRI", None, None), Err(ProductError::NoSubProduct));
    assert_eq!(
        BaseProduct::try_from_codes("POLY", None, Some("X")),
        Err(ProductError::NoSubProduct)
    );
}

#[test]
fn unknown_codes() {
    assert_eq!(BaseProduct::try_from_codes("XXXX", None, None), Err(ProductError::BadSubProduct));
    assert_eq!(
        BaseProduct::try_from_codes("XXXX", Some("GROS"), None),
        Err(ProductError::BadSubProduct)
    );
    assert_eq!(
        BaseProduct::try_from_codes("AGRI", Some("XXXX"), None),
        Err(ProductError::BadSubProduct)
    );
    assert_eq!(
        BaseProduct::try_from_codes("AGRI", Some("GROS"), Some("XXXX")),
        Err(ProductError::BadSubProduct)
    );
    assert_eq!(BaseProduct::try_from_codes("agri", Some("GROS"), Some("FWHT")), Err(ProductError::BadSubProduct));
    assert_eq!(BaseProduct::try_from_codes("", None, None), Err(ProductError::BadSubProduct));
}

#[test]
fn sub_product_of_another_base_product() {
    assert_eq!(
        BaseProduct::try_from_codes("NRGY", Some("GROS"), Some("FWHT")),
        Err(ProductError::BadSubProduct)
    );
    assert_eq!(
        BaseProduct::try_from_codes("AGRI", Some("GROS"), Some("BRNT")),
        Err(ProductError::BadSubProduct)
    );
}

#[test]
fn every_sub_product_without_further_code() {
    assert_eq!(
        BaseProduct::try_from_codes("FRTL", Some("UREA"), None),
        Ok(BaseProduct::Fertilizer(FertilizerSubProduct::Urea))
    );
    assert_eq!(
        BaseProduct::try_from_codes("INDP", Some("MFTG"), None),
        Ok(BaseProduct::IndustrialProducts(IndustrialProductsSubProduct::Manufacturing))
    );
    assert_eq!(
        BaseProduct::try_from_codes("PAPR", Some("RCVP"), None),
        Ok(BaseProduct::Paper(PaperSubProduct::RecoveredPaper))
    );
    assert_eq!(
        BaseProduct::try_from_codes("POLY", Some("PLST"), None),
        Ok(BaseProduct::Polypropylene(PolypropyleneSubProduct::Plastic))
    );
    assert_eq!(
        BaseProduct::try_from_codes("OTHC", Some("NDLV"), None),
        Ok(BaseProduct::OtherC10(OtherC10SubProduct::NonDeliverable))
    );
    assert_eq!(
        BaseProduct::try_from_codes("FRGT", Some("CSHP"), None),
        Ok(BaseProduct::Freight(FreightSubProduct::ContainerShips))
    );
}

#[test]
fn codes_of_a_classification_decode_to_it() {
    let samples = vec![
        BaseProduct::Agricultural(AgriculturalSubProduct::Grain(None)),
        BaseProduct::Agricultural(AgriculturalSubProduct::Livestock),
        BaseProduct::Energy(EnergySubProduct::Electricity(ElectricityFurtherSubProduct::PeakLoad)),
        BaseProduct::Energy(EnergySubProduct::Oil(Some(OilFurtherSubProduct::Wti))),
        BaseProduct::Energy(EnergySubProduct::Coal),
        BaseProduct::Environmental(EnvironmentalSubProduct::Weather),
        BaseProduct::Freight(FreightSubProduct::Dry(None)),
        BaseProduct::Metals(MetalsSubProduct::NonPrecious(NonPreciousMetalsFurtherSubProduct::Other)),
        BaseProduct::MultiCommodityExotic,
        BaseProduct::Other,
    ];
    for product in samples {
        assert_eq!(
            BaseProduct::try_from_codes(product.code(), product.sub_code(), product.further_code()),
            Ok(product)
        );
    }
}

#[test]
fn codes_that_are_written() {
    let oil = BaseProduct::Energy(EnergySubProduct::Oil(Some(OilFurtherSubProduct::JetFuel)));
    assert_eq!(oil.code(), "NRGY");
    assert_eq!(oil.sub_code(), Some("OILP"));
    assert_eq!(oil.further_code(), Some("JTFL"));
    assert_eq!(BaseProduct::Inflation.code(), "INFL");
    assert_eq!(BaseProduct::Inflation.sub_code(), None);
    assert_eq!(BaseProduct::Inflation.further_code(), None);
    assert_eq!(AgriculturalSubProduct::Seafood.code(), "SEAF");
    assert_eq!(AgriculturalSubProduct::Seafood.further_code(), None);
    assert_eq!(OilFurtherSubProduct::LightLouisianaSweet.code(), "LLSO");
}

#[test]
fn sub_product_tables() {
    assert_eq!(
        EnergySubProduct::try_from_codes("NGAS", None),
        Ok(EnergySubProduct::NaturalGas(None))
    );
    assert_eq!(EnergySubProduct::try_from_codes("DIST", None), Ok(EnergySubProduct::Distillates));
    assert_eq!(
        EnergySubProduct::try_from_codes("DIST", Some("BRNT")),
        Err(ProductError::BadSubProduct)
    );
    assert_eq!(EnergySubProduct::try_from_codes("ELEC", None), Err(ProductError::NoSubProduct));
    assert_eq!(
        EnergySubProduct::try_from_codes("ELEC", Some("OFFP")),
        Ok(EnergySubProduct::Electricity(ElectricityFurtherSubProduct::OffPeak))
    );
}

fn olive_oil(code: &str) -> Result<AgriculturalSubProduct, ProductError> {
    match OliveOilFurtherSubProduct::from_code(code) {
        Some(f) => Ok(AgriculturalSubProduct::OliveOil(Some(f))),
        None => Err(ProductError::BadSubProduct),
    }
}

#[test]
fn helpers_for_the_further_code() {
    assert_eq!(with_fsp_or_err(Some("LAMP"), olive_oil), olive_oil("LAMP"));
    assert_eq!(with_fsp_or_err(Some("nope"), olive_oil), Err(ProductError::BadSubProduct));
    assert_eq!(with_fsp_or_err(None, olive_oil), Err(ProductError::NoSubProduct));
    assert_eq!(without_fsp_or_err(7, None), Ok(7));
    assert_eq!(without_fsp_or_err(7, Some("LAMP")), Err(ProductError::BadSubProduct));
    assert_eq!(optional_fsp::<OliveOilFurtherSubProduct>(None), Ok(None));
    assert_eq!(
        optional_fsp::<OliveOilFurtherSubProduct>(Some("LAMP")),
        Ok(Some(OliveOilFurtherSubProduct::Lampante))
    );
    assert_eq!(
        optional_fsp::<OliveOilFurtherSubProduct>(Some("lamp")),
        Err(ProductError::BadSubProduct)
    );
}
