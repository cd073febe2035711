//! Enumerations that the reference-data records are built from.

use vstd::prelude::*;
use crate::coded::Coded;
use crate::text::str_eq;

verus! {

/// The unit of time in which a term is expressed.
#[derive(Debug, Clone, Copy, PartialEq, Eq, Structural)]
pub enum TermUnit {
    /// Written `DAYS`.
    Days,
    /// Written `WEEK`.
    Week,
    /// Written `MNTH`.
    Month,
    /// Written `YEAR`.
    Year,
}

impl DeepView for TermUnit {
    type V = TermUnit;

    open spec fn deep_view(&self) -> TermUnit {
        *self
    }
}

impl Coded for TermUnit {
    open spec fn code_of(self) -> Seq<char> {
        match self {
            TermUnit::Days => "DAYS"@,
            TermUnit::Week => "WEEK"@,
            TermUnit::Month => "MNTH"@,
            TermUnit::Year => "YEAR"@,
        }
    }

    fn code(&self) -> (r: &'static str) {
        match self {
            TermUnit::Days => "DAYS",
            TermUnit::Week => "WEEK",
            TermUnit::Month => "MNTH",
            TermUnit::Year => "YEAR",
        }
    }

    fn from_code(code: &str) -> (r: Option<Self>) {
        if str_eq(code, "DAYS") {
            Some(TermUnit::Days)
        } else if str_eq(code, "WEEK") {
            Some(TermUnit::Week)
        } else if str_eq(code, "MNTH") {
            Some(TermUnit::Month)
        } else if str_eq(code, "YEAR") {
            Some(TermUnit::Year)
        } else {
            None
        }
    }

    proof fn lemma_codes_differ(a: Self, b: Self) {
        reveal_strlit("DAYS");
        reveal_strlit("WEEK");
        reveal_strlit("MNTH");
        reveal_strlit("YEAR");
        assert("DAYS"@[0] == 'D');
        assert("WEEK"@[0] == 'W');
        assert("MNTH"@[0] == 'M');
        assert("YEAR"@[0] == 'Y');
    }
}

/// A four-letter code that names an index or benchmark.
#[derive(Debug, Clone, Copy, PartialEq, Eq, Structural)]
pub enum IndexCode {
    /// Written `EONA`.
    Eonia,
    /// Written `EONS`.
    EoniaSwap,
    /// Written `EURO`.
    Euribor,
    /// Written `EUCH`.
    EuroSwiss,
    /// Written `GCFR`.
    GcfRepo,
    /// Written `ISDA`.
    Isdafix,
    /// Written `LIBI`.
    Libid,
    /// Written `LIBO`.
    Libor,
    /// Written `MAAA`.
    MuniAaa,
    /// Written `PFAN`.
    Pfandbriefe,
    /// Written `TIBO`.
    Tibor,
    /// Written `STBO`.
    Stibor,
    /// Written `BBSW`.
    Bbsw,
    /// Written `JIBA`.
    Jibar,
    /// Written `BUBO`.
    Bubor,
    /// Written `CDOR`.
    Cdor,
    /// Written `CIBO`.
    Cibor,
    /// Written `MOSP`.
    Mosprim,
    /// Written `NIBO`.
    Nibor,
    /// Written `PRBO`.
    Pribor,
    /// Written `TLBO`.
    Telbor,
    /// Written `WIBO`.
    Wibor,
    /// Written `TREA`.
    Treasury,
    /// Written `SWAP`.
    Swap,
    /// Written `FUSW`.
    FutureSwap,
}

impl DeepView for IndexCode {
    type V = IndexCode;

    open spec fn deep_view(&self) -> IndexCode {
        *self
    }
}

impl Coded for IndexCode {
    open spec fn code_of(self) -> Seq<char> {
        match self {
            IndexCode::Eonia => "EONA"@,
            IndexCode::EoniaSwap => "EONS"@,
            IndexCode::Euribor => "EURO"@,
            IndexCode::EuroSwiss => "EUCH"@,
            IndexCode::GcfRepo => "GCFR"@,
            IndexCode::Isdafix => "ISDA"@,
            IndexCode::Libid => "LIBI"@,
            IndexCode::Libor => "LIBO"@,
            IndexCode::MuniAaa => "MAAA"@,
            IndexCode::Pfandbriefe => "PFAN"@,
            IndexCode::Tibor => "TIBO"@,
            IndexCode::Stibor => "STBO"@,
            IndexCode::Bbsw => "BBSW"@,
            IndexCode::Jibar => "JIBA"@,
            IndexCode::Bubor => "BUBO"@,
            IndexCode::Cdor => "CDOR"@,
            IndexCode::Cibor => "CIBO"@,
            IndexCode::Mosprim => "MOSP"@,
            IndexCode::Nibor => "NIBO"@,
            IndexCode::Pribor => "PRBO"@,
            IndexCode::Telbor => "TLBO"@,
            IndexCode::Wibor => "WIBO"@,
            IndexCode::Treasury => "TREA"@,
            IndexCode::Swap => "SWAP"@,
            IndexCode::FutureSwap => "FUSW"@,
        }
    }

    fn code(&self) -> (r: &'static str) {
        match self {
            IndexCode::Eonia => "EONA",
            IndexCode::EoniaSwap => "EONS",
            IndexCode::Euribor => "EURO",
            IndexCode::EuroSwiss => "EUCH",
            IndexCode::GcfRepo => "GCFR",
            IndexCode::Isdafix => "ISDA",
            IndexCode::Libid => "LIBI",
            IndexCode::Libor => "LIBO",
            IndexCode::MuniAaa => "MAAA",
            IndexCode::Pfandbriefe => "PFAN",
            IndexCode::Tibor => "TIBO",
            IndexCode::Stibor => "STBO",
            IndexCode::Bbsw => "BBSW",
            IndexCode::Jibar => "JIBA",
            IndexCode::Bubor => "BUBO",
            IndexCode::Cdor => "CDOR",
            IndexCode::Cibor => "CIBO",
            IndexCode::Mosprim => "MOSP",
            IndexCode::Nibor => "NIBO",
            IndexCode::Pribor => "PRBO",
            IndexCode::Telbor => "TLBO",
            IndexCode::Wibor => "WIBO",
            IndexCode::Treasury => "TREA",
            IndexCode::Swap => "SWAP",
            IndexCode::FutureSwap => "FUSW",
        }
    }

    fn from_code(code: &str) -> (r: Option<Self>) {
        if str_eq(code, "EONA") {
            Some(IndexCode::Eonia)
        } else if str_eq(code, "EONS") {
            Some(IndexCode::EoniaSwap)
        } else if str_eq(code, "EURO") {
            Some(IndexCode::Euribor)
        } else if str_eq(code, "EUCH") {
            Some(IndexCode::EuroSwiss)
        } else if str_eq(code, "GCFR") {
            Some(IndexCode::GcfRepo)
        } else if str_eq(code, "ISDA") {
            Some(IndexCode::Isdafix)
        } else if str_eq(code, "LIBI") {
            Some(IndexCode::Libid)
        } else if str_eq(code, "LIBO") {
            Some(IndexCode::Libor)
        } else if str_eq(code, "MAAA") {
            Some(IndexCode::MuniAaa)
        } else if str_eq(code, "PFAN") {
            Some(IndexCode::Pfandbriefe)
        } else if str_eq(code, "TIBO") {
            Some(IndexCode::Tibor)
        } else if str_eq(code, "STBO") {
            Some(IndexCode::Stibor)
        } else if str_eq(code, "BBSW") {
            Some(IndexCode::Bbsw)
        } else if str_eq(code, "JIBA") {
            Some(IndexCode::Jibar)
        } else if str_eq(code, "BUBO") {
            Some(IndexCode::Bubor)
        } else if str_eq(code, "CDOR") {
            Some(IndexCode::Cdor)
        } else if str_eq(code, "CIBO") {
            Some(IndexCode::Cibor)
        } else if str_eq(code, "MOSP") {
            Some(IndexCode::Mosprim)
        } else if str_eq(code, "NIBO") {
            Some(IndexCode::Nibor)
        } else if str_eq(code, "PRBO") {
            Some(IndexCode::Pribor)
        } else if str_eq(code, "TLBO") {
            Some(IndexCode::Telbor)
        } else if str_eq(code, "WIBO") {
            Some(IndexCode::Wibor)
        } else if str_eq(code, "TREA") {
            Some(IndexCode::Treasury)
        } else if str_eq(code, "SWAP") {
            Some(IndexCode::Swap)
        } else if str_eq(code, "FUSW") {
            Some(IndexCode::FutureSwap)
        } else {
            None
        }
    }

    proof fn lemma_codes_differ(a: Self, b: Self) {
        reveal_strlit("EONA");
        reveal_strlit("EONS");
        reveal_strlit("EURO");
        reveal_strlit("EUCH");
        reveal_strlit("GCFR");
        reveal_strlit("ISDA");
        reveal_strlit("LIBI");
        reveal_strlit("LIBO");
        reveal_strlit("MAAA");
        reveal_strlit("PFAN");
        reveal_strlit("TIBO");
        reveal_strlit("STBO");
        reveal_strlit("BBSW");
        reveal_strlit("JIBA");
        reveal_strlit("BUBO");
        reveal_strlit("CDOR");
        reveal_strlit("CIBO");
        reveal_strlit("MOSP");
        reveal_strlit("NIBO");
        reveal_strlit("PRBO");
        reveal_strlit("TLBO");
        reveal_strlit("WIBO");
        reveal_strlit("TREA");
        reveal_strlit("SWAP");
        reveal_strlit("FUSW");
        assert("EONA"@[0] == 'E' && "EONA"@[1] == 'O' && "EONA"@[3] == 'A');
        assert("EONS"@[0] == 'E' && "EONS"@[1] == 'O' && "EONS"@[3] == 'S');
        assert("EURO"@[0] == 'E' && "EURO"@[1] == 'U' && "EURO"@[3] == 'O');
        assert("EUCH"@[0] == 'E' && "EUCH"@[1] == 'U' && "EUCH"@[3] == 'H');
        assert("GCFR"@[0] == 'G' && "GCFR"@[1] == 'C' && "GCFR"@[3] == 'R');
        assert("ISDA"@[0] == 'I' && "ISDA"@[1] == 'S' && "ISDA"@[3] == 'A');
        assert("LIBI"@[0] == 'L' && "LIBI"@[1] == 'I' && "LIBI"@[3] == 'I');
        assert("LIBO"@[0] == 'L' && "LIBO"@[1] == 'I' && "LIBO"@[3] == 'O');
        assert("MAAA"@[0] == 'M' && "MAAA"@[1] == 'A' && "MAAA"@[3] == 'A');
        assert("PFAN"@[0] == 'P' && "PFAN"@[1] == 'F' && "PFAN"@[3] == 'N');
        assert("TIBO"@[0] == 'T' && "TIBO"@[1] == 'I' && "TIBO"@[3] == 'O');
        assert("STBO"@[0] == 'S' && "STBO"@[1] == 'T' && "STBO"@[3] == 'O');
        assert("BBSW"@[0] == 'B' && "BBSW"@[1] == 'B' && "BBSW"@[3] == 'W');
        assert("JIBA"@[0] == 'J' && "JIBA"@[1] == 'I' && "JIBA"@[3] == 'A');
        assert("BUBO"@[0] == 'B' && "BUBO"@[1] == 'U' && "BUBO"@[3] == 'O');
        assert("CDOR"@[0] == 'C' && "CDOR"@[1] == 'D' && "CDOR"@[3] == 'R');
        assert("CIBO"@[0] == 'C' && "CIBO"@[1] == 'I' && "CIBO"@[3] == 'O');
        assert("MOSP"@[0] == 'M' && "MOSP"@[1] == 'O' && "MOSP"@[3] == 'P');
        assert("NIBO"@[0] == 'N' && "NIBO"@[1] == 'I' && "NIBO"@[3] == 'O');
        assert("PRBO"@[0] == 'P' && "PRBO"@[1] == 'R' && "PRBO"@[3] == 'O');
        assert("TLBO"@[0] == 'T' && "TLBO"@[1] == 'L' && "TLBO"@[3] == 'O');
        assert("WIBO"@[0] == 'W' && "WIBO"@[1] == 'I' && "WIBO"@[3] == 'O');
        assert("TREA"@[0] == 'T' && "TREA"@[1] == 'R' && "TREA"@[3] == 'A');
        assert("SWAP"@[0] == 'S' && "SWAP"@[1] == 'W' && "SWAP"@[3] == 'P');
        assert("FUSW"@[0] == 'F' && "FUSW"@[1] == 'U' && "FUSW"@[3] == 'W');
    }
}

/// The seniority of a debt instrument.
#[derive(Debug, Clone, Copy, PartialEq, Eq, Structural)]
pub enum DebtSeniority {
    /// Written `SNDB`.
    Senior,
    /// Written `MZZD`.
    Mezzanine,
    /// Written `SBOD`.
    Subordinated,
    /// Written `JUND`.
    Junior,
}

impl DeepView for DebtSeniority {
    type V = DebtSeniority;

    open spec fn deep_view(&self) -> DebtSeniority {
        *self
    }
}

impl Coded for DebtSeniority {
    open spec fn code_of(self) -> Seq<char> {
        match self {
            DebtSeniority::Senior => "SNDB"@,
            DebtSeniority::Mezzanine => "MZZD"@,
            DebtSeniority::Subordinated => "SBOD"@,
            DebtSeniority::Junior => "JUND"@,
        }
    }

    fn code(&self) -> (r: &'static str) {
        match self {
            DebtSeniority::Senior => "SNDB",
            DebtSeniority::Mezzanine => "MZZD",
            DebtSeniority::Subordinated => "SBOD",
            DebtSeniority::Junior => "JUND",
        }
    }

    fn from_code(code: &str) -> (r: Option<Self>) {
        if str_eq(code, "SNDB") {
            Some(DebtSeniority::Senior)
        } else if str_eq(code, "MZZD") {
            Some(DebtSeniority::Mezzanine)
        } else if str_eq(code, "SBOD") {
            Some(DebtSeniority::Subordinated)
        } else if str_eq(code, "JUND") {
            Some(DebtSeniority::Junior)
        } else {
            None
        }
    }

    proof fn lemma_codes_differ(a: Self, b: Self) {
        reveal_strlit("SNDB");
        reveal_strlit("MZZD");
        reveal_strlit("SBOD");
        reveal_strlit("JUND");
        assert("SNDB"@[1] == 'N');
        assert("MZZD"@[1] == 'Z');
        assert("SBOD"@[1] == 'B');
        assert("JUND"@[1] == 'U');
    }
}

/// Whether an option is a put, a call, or undetermined.
#[derive(Debug, Clone, Copy, PartialEq, Eq, Structural)]
pub enum OptionType {
    /// Written `PUTO`.
    Put,
    /// Written `CALL`.
    Call,
    /// Written `OTHR`.
    Other,
}

impl DeepView for OptionType {
    type V = OptionType;

    open spec fn deep_view(&self) -> OptionType {
        *self
    }
}

impl Coded for OptionType {
    open spec fn code_of(self) -> Seq<char> {
        match self {
            OptionType::Put => "PUTO"@,
            OptionType::Call => "CALL"@,
            OptionType::Other => "OTHR"@,
        }
    }

    fn code(&self) -> (r: &'static str) {
        match self {
            OptionType::Put => "PUTO",
            OptionType::Call => "CALL",
            OptionType::Other => "OTHR",
        }
    }

    fn from_code(code: &str) -> (r: Option<Self>) {
        if str_eq(code, "PUTO") {
            Some(OptionType::Put)
        } else if str_eq(code, "CALL") {
            Some(OptionType::Call)
        } else if str_eq(code, "OTHR") {
            Some(OptionType::Other)
        } else {
            None
        }
    }

    proof fn lemma_codes_differ(a: Self, b: Self) {
        reveal_strlit("PUTO");
        reveal_strlit("CALL");
        reveal_strlit("OTHR");
        assert("PUTO"@[0] == 'P');
        assert("CALL"@[0] == 'C');
        assert("OTHR"@[0] == 'O');
    }
}

/// When an option may be exercised.
#[derive(Debug, Clone, Copy, PartialEq, Eq, Structural)]
pub enum OptionExerciseStyle {
    /// Written `EURO`.
    European,
    /// Written `AMER`.
    American,
    /// Written `ASIA`.
    Asian,
    /// Written `BERM`.
    Bermudan,
    /// Written `OTHR`.
    Other,
}

impl DeepView for OptionExerciseStyle {
    type V = OptionExerciseStyle;

    open spec fn deep_view(&self) -> OptionExerciseStyle {
        *self
    }
}

impl Coded for OptionExerciseStyle {
    open spec fn code_of(self) -> Seq<char> {
        match self {
            OptionExerciseStyle::European => "EURO"@,
            OptionExerciseStyle::American => "AMER"@,
            OptionExerciseStyle::Asian => "ASIA"@,
            OptionExerciseStyle::Bermudan => "BERM"@,
            OptionExerciseStyle::Other => "OTHR"@,
        }
    }

    fn code(&self) -> (r: &'static str) {
        match self {
            OptionExerciseStyle::European => "EURO",
            OptionExerciseStyle::American => "AMER",
            OptionExerciseStyle::Asian => "ASIA",
            OptionExerciseStyle::Bermudan => "BERM",
            OptionExerciseStyle::Other => "OTHR",
        }
    }

    fn from_code(code: &str) -> (r: Option<Self>) {
        if str_eq(code, "EURO") {
            Some(OptionExerciseStyle::European)
        } else if str_eq(code, "AMER") {
            Some(OptionExerciseStyle::American)
        } else if str_eq(code, "ASIA") {
            Some(OptionExerciseStyle::Asian)
        } else if str_eq(code, "BERM") {
            Some(OptionExerciseStyle::Bermudan)
        } else if str_eq(code, "OTHR") {
            Some(OptionExerciseStyle::Other)
        } else {
            None
        }
    }

    proof fn lemma_codes_differ(a: Self, b: Self) {
        reveal_strlit("EURO");
        reveal_strlit("AMER");
        reveal_strlit("ASIA");
        reveal_strlit("BERM");
        reveal_strlit("OTHR");
        assert("EURO"@[1] == 'U');
        assert("AMER"@[1] == 'M');
        assert("ASIA"@[1] == 'S');
        assert("BERM"@[1] == 'E');
        assert("OTHR"@[1] == 'T');
    }
}

/// How an instrument is settled.
#[derive(Debug, Clone, Copy, PartialEq, Eq, Structural)]
pub enum DeliveryType {
    /// Written `PHYS`.
    Physical,
    /// Written `CASH`.
    Cash,
    /// Written `OPTL`.
    Optional,
}

impl DeepView for DeliveryType {
    type V = DeliveryType;

    open spec fn deep_view(&self) -> DeliveryType {
        *self
    }
}

impl Coded for DeliveryType {
    open spec fn code_of(self) -> Seq<char> {
        match self {
            DeliveryType::Physical => "PHYS"@,
            DeliveryType::Cash => "CASH"@,
            DeliveryType::Optional => "OPTL"@,
        }
    }

    fn code(&self) -> (r: &'static str) {
        match self {
            DeliveryType::Physical => "PHYS",
            DeliveryType::Cash => "CASH",
            DeliveryType::Optional => "OPTL",
        }
    }

    fn from_code(code: &str) -> (r: Option<Self>) {
        if str_eq(code, "PHYS") {
            Some(DeliveryType::Physical)
        } else if str_eq(code, "CASH") {
            Some(DeliveryType::Cash)
        } else if str_eq(code, "OPTL") {
            Some(DeliveryType::Optional)
        } else {
            None
        }
    }

    proof fn lemma_codes_differ(a: Self, b: Self) {
        reveal_strlit("PHYS");
        reveal_strlit("CASH");
        reveal_strlit("OPTL");
        assert("PHYS"@[0] == 'P');
        assert("CASH"@[0] == 'C');
        assert("OPTL"@[0] == 'O');
    }
}

/// The transaction type as the trading venue specifies it.
#[derive(Debug, Clone, Copy, PartialEq, Eq, Structural)]
pub enum TransactionType {
    /// Written `FUTR`.
    Futures,
    /// Written `OPTN`.
    Options,
    /// Written `TAPO`.
    Tapos,
    /// Written `SWAP`.
    Swaps,
    /// Written `MINI`.
    Minis,
    /// Written `OTCT`.
    OverTheCounter,
    /// Written `ORIT`.
    Outright,
    /// Written `CRCK`.
    Crack,
    /// Written `DIFF`.
    Differential,
    /// Written `OTHR`.
    Other,
}

impl DeepView for TransactionType {
    type V = TransactionType;

    open spec fn deep_view(&self) -> TransactionType {
        *self
    }
}

impl Coded for TransactionType {
    open spec fn code_of(self) -> Seq<char> {
        match self {
            TransactionType::Futures => "FUTR"@,
            TransactionType::Options => "OPTN"@,
            TransactionType::Tapos => "TAPO"@,
            TransactionType::Swaps => "SWAP"@,
            TransactionType::Minis => "MINI"@,
            TransactionType::OverTheCounter => "OTCT"@,
            TransactionType::Outright => "ORIT"@,
            TransactionType::Crack => "CRCK"@,
            TransactionType::Differential => "DIFF"@,
            TransactionType::Other => "OTHR"@,
        }
    }

    fn code(&self) -> (r: &'static str) {
        match self {
            TransactionType::Futures => "FUTR",
            TransactionType::Options => "OPTN",
            TransactionType::Tapos => "TAPO",
            TransactionType::Swaps => "SWAP",
            TransactionType::Minis => "MINI",
            TransactionType::OverTheCounter => "OTCT",
            TransactionType::Outright => "ORIT",
            TransactionType::Crack => "CRCK",
            TransactionType::Differential => "DIFF",
            TransactionType::Other => "OTHR",
        }
    }

    fn from_code(code: &str) -> (r: Option<Self>) {
        if str_eq(code, "FUTR") {
            Some(TransactionType::Futures)
        } else if str_eq(code, "OPTN") {
            Some(TransactionType::Options)
        } else if str_eq(code, "TAPO") {
            Some(TransactionType::Tapos)
        } else if str_eq(code, "SWAP") {
            Some(TransactionType::Swaps)
        } else if str_eq(code, "MINI") {
            Some(TransactionType::Minis)
        } else if str_eq(code, "OTCT") {
            Some(TransactionType::OverTheCounter)
        } else if str_eq(code, "ORIT") {
            Some(TransactionType::Outright)
        } else if str_eq(code, "CRCK") {
            Some(TransactionType::Crack)
        } else if str_eq(code, "DIFF") {
            Some(TransactionType::Differential)
        } else if str_eq(code, "OTHR") {
            Some(TransactionType::Other)
        } else {
            None
        }
    }

    proof fn lemma_codes_differ(a: Self, b: Self) {
        reveal_strlit("FUTR");
        reveal_strlit("OPTN");
        reveal_strlit("TAPO");
        reveal_strlit("SWAP");
        reveal_strlit("MINI");
        reveal_strlit("OTCT");
        reveal_strlit("ORIT");
        reveal_strlit("CRCK");
        reveal_strlit("DIFF");
        reveal_strlit("OTHR");
        assert("FUTR"@[0] == 'F' && "FUTR"@[2] == 'T');
        assert("OPTN"@[0] == 'O' && "OPTN"@[2] == 'T');
        assert("TAPO"@[0] == 'T' && "TAPO"@[2] == 'P');
        assert("SWAP"@[0] == 'S' && "SWAP"@[2] == 'A');
        assert("MINI"@[0] == 'M' && "MINI"@[2] == 'N');
        assert("OTCT"@[0] == 'O' && "OTCT"@[2] == 'C');
        assert("ORIT"@[0] == 'O' && "ORIT"@[2] == 'I');
        assert("CRCK"@[0] == 'C' && "CRCK"@[2] == 'C');
        assert("DIFF"@[0] == 'D' && "DIFF"@[2] == 'F');
        assert("OTHR"@[0] == 'O' && "OTHR"@[2] == 'H');
    }
}

/// The final price type as the trading venue specifies it.
#[derive(Debug, Clone, Copy, PartialEq, Eq, Structural)]
pub enum FinalPriceType {
    /// Written `ARGM`.
    ArgusMcCloskey,
    /// Written `BLTC`.
    Baltic,
    /// Written `EXOF`.
    Exchange,
    /// Written `GBCL`.
    GlobalCoal,
    /// Written `IHSM`.
    IHSMarkit,
    /// Written `PLAT`.
    Platts,
    /// Written `OTHR`.
    Other,
}

impl DeepView for FinalPriceType {
    type V = FinalPriceType;

    open spec fn deep_view(&self) -> FinalPriceType {
        *self
    }
}

impl Coded for FinalPriceType {
    open spec fn code_of(self) -> Seq<char> {
        match self {
            FinalPriceType::ArgusMcCloskey => "ARGM"@,
            FinalPriceType::Baltic => "BLTC"@,
            FinalPriceType::Exchange => "EXOF"@,
            FinalPriceType::GlobalCoal => "GBCL"@,
            FinalPriceType::IHSMarkit => "IHSM"@,
            FinalPriceType::Platts => "PLAT"@,
            FinalPriceType::Other => "OTHR"@,
        }
    }

    fn code(&self) -> (r: &'static str) {
        match self {
            FinalPriceType::ArgusMcCloskey => "ARGM",
            FinalPriceType::Baltic => "BLTC",
            FinalPriceType::Exchange => "EXOF",
            FinalPriceType::GlobalCoal => "GBCL",
            FinalPriceType::IHSMarkit => "IHSM",
            FinalPriceType::Platts => "PLAT",
            FinalPriceType::Other => "OTHR",
        }
    }

    fn from_code(code: &str) -> (r: Option<Self>) {
        if str_eq(code, "ARGM") {
            Some(FinalPriceType::ArgusMcCloskey)
        } else if str_eq(code, "BLTC") {
            Some(FinalPriceType::Baltic)
        } else if str_eq(code, "EXOF") {
            Some(FinalPriceType::Exchange)
        } else if str_eq(code, "GBCL") {
            Some(FinalPriceType::GlobalCoal)
        } else if str_eq(code, "IHSM") {
            Some(FinalPriceType::IHSMarkit)
        } else if str_eq(code, "PLAT") {
            Some(FinalPriceType::Platts)
        } else if str_eq(code, "OTHR") {
            Some(FinalPriceType::Other)
        } else {
            None
        }
    }

    proof fn lemma_codes_differ(a: Self, b: Self) {
        reveal_strlit("ARGM");
        reveal_strlit("BLTC");
        reveal_strlit("EXOF");
        reveal_strlit("GBCL");
        reveal_strlit("IHSM");
        reveal_strlit("PLAT");
        reveal_strlit("OTHR");
        assert("ARGM"@[0] == 'A');
        assert("BLTC"@[0] == 'B');
        assert("EXOF"@[0] == 'E');
        assert("GBCL"@[0] == 'G');
        assert("IHSM"@[0] == 'I');
        assert("PLAT"@[0] == 'P');
        assert("OTHR"@[0] == 'O');
    }
}

/// The kind of currency pair that underlies an FX derivative.
#[derive(Debug, Clone, Copy, PartialEq, Eq, Structural)]
pub enum FxType {
    /// Written `FXCR`.
    CrossRates,
    /// Written `FXEM`.
    EmergingMarkets,
    /// Written `FXMJ`.
    Majors,
}

impl DeepView for FxType {
    type V = FxType;

    open spec fn deep_view(&self) -> FxType {
        *self
    }
}

impl Coded for FxType {
    open spec fn code_of(self) -> Seq<char> {
        match self {
            FxType::CrossRates => "FXCR"@,
            FxType::EmergingMarkets => "FXEM"@,
            FxType::Majors => "FXMJ"@,
        }
    }

    fn code(&self) -> (r: &'static str) {
        match self {
            FxType::CrossRates => "FXCR",
            FxType::EmergingMarkets => "FXEM",
            FxType::Majors => "FXMJ",
        }
    }

    fn from_code(code: &str) -> (r: Option<Self>) {
        if str_eq(code, "FXCR") {
            Some(FxType::CrossRates)
        } else if str_eq(code, "FXEM") {
            Some(FxType::EmergingMarkets)
        } else if str_eq(code, "FXMJ") {
            Some(FxType::Majors)
        } else {
            None
        }
    }

    proof fn lemma_codes_differ(a: Self, b: Self) {
        reveal_strlit("FXCR");
        reveal_strlit("FXEM");
        reveal_strlit("FXMJ");
        assert("FXCR"@[2] == 'C');
        assert("FXEM"@[2] == 'E');
        assert("FXMJ"@[2] == 'M');
    }
}

/// How a strike price is expressed, or that there is none.
#[derive(Debug, Clone, Copy, PartialEq, Eq, Structural)]
pub enum StrikePriceType {
    /// Written `MONETARY_VALUE`.
    MonetaryValue,
    /// Written `PERCENTAGE`.
    Percentage,
    /// Written `YIELD`.
    Yield,
    /// Written `BASIS_POINTS`.
    BasisPoints,
    /// Written `NO_PRICE`.
    NoPrice,
}

impl DeepView for StrikePriceType {
    type V = StrikePriceType;

    open spec fn deep_view(&self) -> StrikePriceType {
        *self
    }
}

impl Coded for StrikePriceType {
    open spec fn code_of(self) -> Seq<char> {
        match self {
            StrikePriceType::MonetaryValue => "MONETARY_VALUE"@,
            StrikePriceType::Percentage => "PERCENTAGE"@,
            StrikePriceType::Yield => "YIELD"@,
            StrikePriceType::BasisPoints => "BASIS_POINTS"@,
            StrikePriceType::NoPrice => "NO_PRICE"@,
        }
    }

    fn code(&self) -> (r: &'static str) {
        match self {
            StrikePriceType::MonetaryValue => "MONETARY_VALUE",
            StrikePriceType::Percentage => "PERCENTAGE",
            StrikePriceType::Yield => "YIELD",
            StrikePriceType::BasisPoints => "BASIS_POINTS",
            StrikePriceType::NoPrice => "NO_PRICE",
        }
    }

    fn from_code(code: &str) -> (r: Option<Self>) {
        if str_eq(code, "MONETARY_VALUE") {
            Some(StrikePriceType::MonetaryValue)
        } else if str_eq(code, "PERCENTAGE") {
            Some(StrikePriceType::Percentage)
        } else if str_eq(code, "YIELD") {
            Some(StrikePriceType::Yield)
        } else if str_eq(code, "BASIS_POINTS") {
            Some(StrikePriceType::BasisPoints)
        } else if str_eq(code, "NO_PRICE") {
            Some(StrikePriceType::NoPrice)
        } else {
            None
        }
    }

    proof fn lemma_codes_differ(a: Self, b: Self) {
        reveal_strlit("MONETARY_VALUE");
        reveal_strlit("PERCENTAGE");
        reveal_strlit("YIELD");
        reveal_strlit("BASIS_POINTS");
        reveal_strlit("NO_PRICE");
        assert("MONETARY_VALUE"@[0] == 'M');
        assert("PERCENTAGE"@[0] == 'P');
        assert("YIELD"@[0] == 'Y');
        assert("BASIS_POINTS"@[0] == 'B');
        assert("NO_PRICE"@[0] == 'N');
    }
}

} // verus!
