//! The host's runtime error code space, mirrored one to one.
//!
//! The host engine diagnoses scripts with a fixed taxonomy of integer error
//! codes; this binding never originates those codes, it only reads the last
//! recorded one or re-raises one with a description. Each code value defined
//! by the host ABI decodes to exactly one variant here, and each variant
//! encodes back to exactly the value the host defined.

use vstd::prelude::*;

verus! {

/// One diagnostic code of the host's fixed error taxonomy.
#[derive(Clone, Copy, Debug, PartialEq, Eq, Structural)]
pub enum RunTimeError {
    NoError,
    Parens,
    NoExp,
    DivZero,
    EqualExp,
    NotVar,
    LabTabFull,
    DupLab,
    UndefTab,
    ThenExpected,
    ToExpected,
    TooManyFor,
    NextWithoutFor,
    MissingSemicolon,
    CommandRetNoneInExpression,
    MissQuote,
    BadFile,
    StrExpected,
    UnknownKeyword,
    MissingOpenparens,
    MissingCloseparens,
    MissingComma,
    MissingSquarecloseparens,
    EolIncorrect,
    DoubleConcatenation,
    CommandUnknownReturnedParameter,
    PrimitiveStr,
    PrimitiveNum,
    PrintError,
    PrintErrorNoendofline,
    VariableNotDefined,
    AtomTokenTypeNumeric,
    IfWithoutEndif,
    IfEndifWithoutIf,
    TooManyWhile,
    WhileWithoutWend,
    DimTypeNotDefined,
    ExitNoKeyFound,
    NoEndFunctionFound,
    FunctionNameDuplicate,
    FunctionNameIsKey,
    FunctionNameIsVar,
    FunctionNameIsUdt,
    EndNoKeyFound,
    DimMissingAs,
    UndefinedToken,
    UnsupportedChar,
    FunctionDeclareMissingAs,
    DeclareFunctionOrSubExpected,
    DoLoopWrongCondition,
    MissingAlias,
    MissingLib,
    UndefinedVarType,
    ParameterByrefIncorrectPtr,
    LoopExpectedWhileOrUntil,
    EndFunctionWithoutFunction,
    EndFunctionFound,
    IterateNoKeyFound,
    WithEndWithError,
    TooNestedDoloop,
    DoLoopMissingDoOrLoop,
    VariableNotDimensioned,
    VariableIsNotArray,
    VariableMustbeStringType,
    RedimNewTypeNotSupported,
    RedimPreserveNotValidAbsolute,
    VariableMustBeUdtType,
    KeywordNotExpected,
    TokenNotExpected,
    IncludeFileNotFound,
    DimUnexpectedKeyword,
    FunctionNotSupported,
    ArrayFunctionNotSupported,
    UdtElementNotFound,
    UdtExpected,
    UdtEquOrElementExpected,
    AssignmentNotSupported,
    RelationalExpected,
    ApiLibNotFound,
    ApiFunctionNotFoundInLib,
    ApiGeneralAddressNotPresent,
    CallNotSupportedStatement,
    CallFunctionNotFound,
    FunctionNotFound,
    FunctionExpectedCallback,
    EquateAlreadyDefined,
    EquateAlreadyDefinedDifferent,
    VariableNameDuplicateGlobal,
    VariableNameDuplicateFunction,
    VariableNameDuplicateLocal,
    VariableNameDuplicate,
    ForStepShouldBeNegative,
    ForStepShouldBePositive,
    ForExpectedAVariable,
    ForStepIsZero,
    ForVarMustBeNumeric,
    AliasCommandNameExpected,
    AliasAsExpected,
    AliasUndefNotUndef,
    TypeMissingEndUnion,
    TypeMissingEndType,
    TypeMissingEndClass,
    TypeTypeNotDefined,
    TypeMissingAs,
    TypeNameMustbeUndefined,
    TypeArrayMustbeDimensioned,
    TypeStringsMustHaveSize,
    TypeElementAlreadyPresent,
    TypeElementAlreadyPresentInherit,
    TypeDynstringInsideUnion,
    NoEndRawtextFound,
    BeginBlockUnsuported,
    BeginConstMissingEnd,
    FunctionParamUnrecognizedType,
    DoWithoutLoop,
    FunctionMissingAs,
    RegexprMissingTo,
    RegexprMissingIn,
    SelectWithoutEndSelect,
    DuplicateSymbol,
    InvalidnumericChar,
    InvalidDelimiter,
    InvalidDataType,
    VariableExpected,
    VariableVariantExpected,
    SelectMissingCase,
    SelectErrorKindofOperation,
    SelectCodeBetweenSelectCase,
    StrptrVariableNotADynstringNum,
    StrptrVariableNotADynstringVar,
    StrptrVariableNotADynstringUdt,
    ApicallRefExpected,
    ArrayOutOfBound,
    ModuleSpecific,
    PreparserDirectiveNotSupported,
    PreparserScriptVersionRequest,
    InternalReturnMainType,
    InternalDecription,
    InternalUdtBufferShort,
    InternalReturnNoneNoCodePtr,
    InternalReturnNumberNoCodePtr,
    InternalReturnStringNoCodePtr,
    ClassNewNoIndexAllowed,
    ClassNewDifferentClass,
    ClassNewNoClass,
    ClassNewExpectedNew,
    ClassNotInitWithNew,
    ClassSetNowAllowed,
    ClassMethodPropertyNotfound,
    ClassExpected,
    TraceStopByUser,
    ObfuscationFileNotValid,
    ComGeneric,
}

impl RunTimeError {
    /// The integer value the host ABI fixes for each code.
    pub open spec fn spec_code(self) -> i32 {
        match self {
            RunTimeError::NoError => 0,
            RunTimeError::Parens => 1,
            RunTimeError::NoExp => 2,
            RunTimeError::DivZero => 3,
            RunTimeError::EqualExp => 4,
            RunTimeError::NotVar => 5,
            RunTimeError::LabTabFull => 6,
            RunTimeError::DupLab => 7,
            RunTimeError::UndefTab => 8,
            RunTimeError::ThenExpected => 9,
            RunTimeError::ToExpected => 10,
            RunTimeError::TooManyFor => 11,
            RunTimeError::NextWithoutFor => 12,
            RunTimeError::MissingSemicolon => 13,
            RunTimeError::CommandRetNoneInExpression => 14,
            RunTimeError::MissQuote => 15,
            RunTimeError::BadFile => 16,
            RunTimeError::StrExpected => 17,
            RunTimeError::UnknownKeyword => 18,
            RunTimeError::MissingOpenparens => 19,
            RunTimeError::MissingCloseparens => 20,
            RunTimeError::MissingComma => 21,
            RunTimeError::MissingSquarecloseparens => 22,
            RunTimeError::EolIncorrect => 23,
            RunTimeError::DoubleConcatenation => 24,
            RunTimeError::CommandUnknownReturnedParameter => 25,
            RunTimeError::PrimitiveStr => 26,
            RunTimeError::PrimitiveNum => 27,
            RunTimeError::PrintError => 28,
            RunTimeError::PrintErrorNoendofline => 29,
            RunTimeError::VariableNotDefined => 30,
            RunTimeError::AtomTokenTypeNumeric => 31,
            RunTimeError::IfWithoutEndif => 32,
            RunTimeError::IfEndifWithoutIf => 33,
            RunTimeError::TooManyWhile => 34,
            RunTimeError::WhileWithoutWend => 35,
            RunTimeError::DimTypeNotDefined => 36,
            RunTimeError::ExitNoKeyFound => 37,
            RunTimeError::NoEndFunctionFound => 38,
            RunTimeError::FunctionNameDuplicate => 39,
            RunTimeError::FunctionNameIsKey => 40,
            RunTimeError::FunctionNameIsVar => 41,
            RunTimeError::FunctionNameIsUdt => 42,
            RunTimeError::EndNoKeyFound => 43,
            RunTimeError::DimMissingAs => 44,
            RunTimeError::UndefinedToken => 45,
            RunTimeError::UnsupportedChar => 46,
            RunTimeError::FunctionDeclareMissingAs => 47,
            RunTimeError::DeclareFunctionOrSubExpected => 48,
            RunTimeError::DoLoopWrongCondition => 49,
            RunTimeError::MissingAlias => 50,
            RunTimeError::MissingLib => 51,
            RunTimeError::UndefinedVarType => 52,
            RunTimeError::ParameterByrefIncorrectPtr => 53,
            RunTimeError::LoopExpectedWhileOrUntil => 55,
            RunTimeError::EndFunctionWithoutFunction => 58,
            RunTimeError::EndFunctionFound => 59,
            RunTimeError::IterateNoKeyFound => 60,
            RunTimeError::WithEndWithError => 64,
            RunTimeError::TooNestedDoloop => 65,
            RunTimeError::DoLoopMissingDoOrLoop => 66,
            RunTimeError::VariableNotDimensioned => 70,
            RunTimeError::VariableIsNotArray => 71,
            RunTimeError::VariableMustbeStringType => 72,
            RunTimeError::RedimNewTypeNotSupported => 73,
            RunTimeError::RedimPreserveNotValidAbsolute => 74,
            RunTimeError::VariableMustBeUdtType => 75,
            RunTimeError::KeywordNotExpected => 76,
            RunTimeError::TokenNotExpected => 77,
            RunTimeError::IncludeFileNotFound => 80,
            RunTimeError::DimUnexpectedKeyword => 85,
            RunTimeError::FunctionNotSupported => 90,
            RunTimeError::ArrayFunctionNotSupported => 91,
            RunTimeError::UdtElementNotFound => 100,
            RunTimeError::UdtExpected => 101,
            RunTimeError::UdtEquOrElementExpected => 102,
            RunTimeError::AssignmentNotSupported => 110,
            RunTimeError::RelationalExpected => 115,
            RunTimeError::ApiLibNotFound => 120,
            RunTimeError::ApiFunctionNotFoundInLib => 121,
            RunTimeError::ApiGeneralAddressNotPresent => 122,
            RunTimeError::CallNotSupportedStatement => 130,
            RunTimeError::CallFunctionNotFound => 131,
            RunTimeError::FunctionNotFound => 133,
            RunTimeError::FunctionExpectedCallback => 134,
            RunTimeError::EquateAlreadyDefined => 135,
            RunTimeError::EquateAlreadyDefinedDifferent => 136,
            RunTimeError::VariableNameDuplicateGlobal => 142,
            RunTimeError::VariableNameDuplicateFunction => 144,
            RunTimeError::VariableNameDuplicateLocal => 145,
            RunTimeError::VariableNameDuplicate => 146,
            RunTimeError::ForStepShouldBeNegative => 150,
            RunTimeError::ForStepShouldBePositive => 151,
            RunTimeError::ForExpectedAVariable => 152,
            RunTimeError::ForStepIsZero => 153,
            RunTimeError::ForVarMustBeNumeric => 154,
            RunTimeError::AliasCommandNameExpected => 160,
            RunTimeError::AliasAsExpected => 161,
            RunTimeError::AliasUndefNotUndef => 162,
            RunTimeError::TypeMissingEndUnion => 169,
            RunTimeError::TypeMissingEndType => 170,
            RunTimeError::TypeMissingEndClass => 171,
            RunTimeError::TypeTypeNotDefined => 172,
            RunTimeError::TypeMissingAs => 173,
            RunTimeError::TypeNameMustbeUndefined => 174,
            RunTimeError::TypeArrayMustbeDimensioned => 175,
            RunTimeError::TypeStringsMustHaveSize => 176,
            RunTimeError::TypeElementAlreadyPresent => 177,
            RunTimeError::TypeElementAlreadyPresentInherit => 178,
            RunTimeError::TypeDynstringInsideUnion => 179,
            RunTimeError::NoEndRawtextFound => 180,
            RunTimeError::BeginBlockUnsuported => 190,
            RunTimeError::BeginConstMissingEnd => 191,
            RunTimeError::FunctionParamUnrecognizedType => 220,
            RunTimeError::DoWithoutLoop => 245,
            RunTimeError::FunctionMissingAs => 246,
            RunTimeError::RegexprMissingTo => 247,
            RunTimeError::RegexprMissingIn => 248,
            RunTimeError::SelectWithoutEndSelect => 249,
            RunTimeError::DuplicateSymbol => 250,
            RunTimeError::InvalidnumericChar => 251,
            RunTimeError::InvalidDelimiter => 252,
            RunTimeError::InvalidDataType => 253,
            RunTimeError::VariableExpected => 254,
            RunTimeError::VariableVariantExpected => 255,
            RunTimeError::SelectMissingCase => 270,
            RunTimeError::SelectErrorKindofOperation => 271,
            RunTimeError::SelectCodeBetweenSelectCase => 272,
            RunTimeError::StrptrVariableNotADynstringNum => 280,
            RunTimeError::StrptrVariableNotADynstringVar => 281,
            RunTimeError::StrptrVariableNotADynstringUdt => 282,
            RunTimeError::ApicallRefExpected => 300,
            RunTimeError::ArrayOutOfBound => 400,
            RunTimeError::ModuleSpecific => 500,
            RunTimeError::PreparserDirectiveNotSupported => 800,
            RunTimeError::PreparserScriptVersionRequest => 820,
            RunTimeError::InternalReturnMainType => 900,
            RunTimeError::InternalDecription => 910,
            RunTimeError::InternalUdtBufferShort => 915,
            RunTimeError::InternalReturnNoneNoCodePtr => 921,
            RunTimeError::InternalReturnNumberNoCodePtr => 922,
            RunTimeError::InternalReturnStringNoCodePtr => 923,
            RunTimeError::ClassNewNoIndexAllowed => 5010,
            RunTimeError::ClassNewDifferentClass => 5015,
            RunTimeError::ClassNewNoClass => 5020,
            RunTimeError::ClassNewExpectedNew => 5025,
            RunTimeError::ClassNotInitWithNew => 5030,
            RunTimeError::ClassSetNowAllowed => 5035,
            RunTimeError::ClassMethodPropertyNotfound => 5100,
            RunTimeError::ClassExpected => 5110,
            RunTimeError::TraceStopByUser => 11000,
            RunTimeError::ObfuscationFileNotValid => 12000,
            RunTimeError::ComGeneric => 30000,
        }
    }

    /// The code value as it crosses the ABI boundary.
    pub fn code(self) -> (r: i32)
        ensures
            r == self.spec_code(),
    {
        match self {
            RunTimeError::NoError => 0,
            RunTimeError::Parens => 1,
            RunTimeError::NoExp => 2,
            RunTimeError::DivZero => 3,
            RunTimeError::EqualExp => 4,
            RunTimeError::NotVar => 5,
            RunTimeError::LabTabFull => 6,
            RunTimeError::DupLab => 7,
            RunTimeError::UndefTab => 8,
            RunTimeError::ThenExpected => 9,
            RunTimeError::ToExpected => 10,
            RunTimeError::TooManyFor => 11,
            RunTimeError::NextWithoutFor => 12,
            RunTimeError::MissingSemicolon => 13,
            RunTimeError::CommandRetNoneInExpression => 14,
            RunTimeError::MissQuote => 15,
            RunTimeError::BadFile => 16,
            RunTimeError::StrExpected => 17,
            RunTimeError::UnknownKeyword => 18,
            RunTimeError::MissingOpenparens => 19,
            RunTimeError::MissingCloseparens => 20,
            RunTimeError::MissingComma => 21,
            RunTimeError::MissingSquarecloseparens => 22,
            RunTimeError::EolIncorrect => 23,
            RunTimeError::DoubleConcatenation => 24,
            RunTimeError::CommandUnknownReturnedParameter => 25,
            RunTimeError::PrimitiveStr => 26,
            RunTimeError::PrimitiveNum => 27,
            RunTimeError::PrintError => 28,
            RunTimeError::PrintErrorNoendofline => 29,
            RunTimeError::VariableNotDefined => 30,
            RunTimeError::AtomTokenTypeNumeric => 31,
            RunTimeError::IfWithoutEndif => 32,
            RunTimeError::IfEndifWithoutIf => 33,
            RunTimeError::TooManyWhile => 34,
            RunTimeError::WhileWithoutWend => 35,
            RunTimeError::DimTypeNotDefined => 36,
            RunTimeError::ExitNoKeyFound => 37,
            RunTimeError::NoEndFunctionFound => 38,
            RunTimeError::FunctionNameDuplicate => 39,
            RunTimeError::FunctionNameIsKey => 40,
            RunTimeError::FunctionNameIsVar => 41,
            RunTimeError::FunctionNameIsUdt => 42,
            RunTimeError::EndNoKeyFound => 43,
            RunTimeError::DimMissingAs => 44,
            RunTimeError::UndefinedToken => 45,
            RunTimeError::UnsupportedChar => 46,
            RunTimeError::FunctionDeclareMissingAs => 47,
            RunTimeError::DeclareFunctionOrSubExpected => 48,
            RunTimeError::DoLoopWrongCondition => 49,
            RunTimeError::MissingAlias => 50,
            RunTimeError::MissingLib => 51,
            RunTimeError::UndefinedVarType => 52,
            RunTimeError::ParameterByrefIncorrectPtr => 53,
            RunTimeError::LoopExpectedWhileOrUntil => 55,
            RunTimeError::EndFunctionWithoutFunction => 58,
            RunTimeError::EndFunctionFound => 59,
            RunTimeError::IterateNoKeyFound => 60,
            RunTimeError::WithEndWithError => 64,
            RunTimeError::TooNestedDoloop => 65,
            RunTimeError::DoLoopMissingDoOrLoop => 66,
            RunTimeError::VariableNotDimensioned => 70,
            RunTimeError::VariableIsNotArray => 71,
            RunTimeError::VariableMustbeStringType => 72,
            RunTimeError::RedimNewTypeNotSupported => 73,
            RunTimeError::RedimPreserveNotValidAbsolute => 74,
            RunTimeError::VariableMustBeUdtType => 75,
            RunTimeError::KeywordNotExpected => 76,
            RunTimeError::TokenNotExpected => 77,
            RunTimeError::IncludeFileNotFound => 80,
            RunTimeError::DimUnexpectedKeyword => 85,
            RunTimeError::FunctionNotSupported => 90,
            RunTimeError::ArrayFunctionNotSupported => 91,
            RunTimeError::UdtElementNotFound => 100,
            RunTimeError::UdtExpected => 101,
            RunTimeError::UdtEquOrElementExpected => 102,
            RunTimeError::AssignmentNotSupported => 110,
            RunTimeError::RelationalExpected => 115,
            RunTimeError::ApiLibNotFound => 120,
            RunTimeError::ApiFunctionNotFoundInLib => 121,
            RunTimeError::ApiGeneralAddressNotPresent => 122,
            RunTimeError::CallNotSupportedStatement => 130,
            RunTimeError::CallFunctionNotFound => 131,
            RunTimeError::FunctionNotFound => 133,
            RunTimeError::FunctionExpectedCallback => 134,
            RunTimeError::EquateAlreadyDefined => 135,
            RunTimeError::EquateAlreadyDefinedDifferent => 136,
            RunTimeError::VariableNameDuplicateGlobal => 142,
            RunTimeError::VariableNameDuplicateFunction => 144,
            RunTimeError::VariableNameDuplicateLocal => 145,
            RunTimeError::VariableNameDuplicate => 146,
            RunTimeError::ForStepShouldBeNegative => 150,
            RunTimeError::ForStepShouldBePositive => 151,
            RunTimeError::ForExpectedAVariable => 152,
            RunTimeError::ForStepIsZero => 153,
            RunTimeError::ForVarMustBeNumeric => 154,
            RunTimeError::AliasCommandNameExpected => 160,
            RunTimeError::AliasAsExpected => 161,
            RunTimeError::AliasUndefNotUndef => 162,
            RunTimeError::TypeMissingEndUnion => 169,
            RunTimeError::TypeMissingEndType => 170,
            RunTimeError::TypeMissingEndClass => 171,
            RunTimeError::TypeTypeNotDefined => 172,
            RunTimeError::TypeMissingAs => 173,
            RunTimeError::TypeNameMustbeUndefined => 174,
            RunTimeError::TypeArrayMustbeDimensioned => 175,
            RunTimeError::TypeStringsMustHaveSize => 176,
            RunTimeError::TypeElementAlreadyPresent => 177,
            RunTimeError::TypeElementAlreadyPresentInherit => 178,
            RunTimeError::TypeDynstringInsideUnion => 179,
            RunTimeError::NoEndRawtextFound => 180,
            RunTimeError::BeginBlockUnsuported => 190,
            RunTimeError::BeginConstMissingEnd => 191,
            RunTimeError::FunctionParamUnrecognizedType => 220,
            RunTimeError::DoWithoutLoop => 245,
            RunTimeError::FunctionMissingAs => 246,
            RunTimeError::RegexprMissingTo => 247,
            RunTimeError::RegexprMissingIn => 248,
            RunTimeError::SelectWithoutEndSelect => 249,
            RunTimeError::DuplicateSymbol => 250,
            RunTimeError::InvalidnumericChar => 251,
            RunTimeError::InvalidDelimiter => 252,
            RunTimeError::InvalidDataType => 253,
            RunTimeError::VariableExpected => 254,
            RunTimeError::VariableVariantExpected => 255,
            RunTimeError::SelectMissingCase => 270,
            RunTimeError::SelectErrorKindofOperation => 271,
            RunTimeError::SelectCodeBetweenSelectCase => 272,
            RunTimeError::StrptrVariableNotADynstringNum => 280,
            RunTimeError::StrptrVariableNotADynstringVar => 281,
            RunTimeError::StrptrVariableNotADynstringUdt => 282,
            RunTimeError::ApicallRefExpected => 300,
            RunTimeError::ArrayOutOfBound => 400,
            RunTimeError::ModuleSpecific => 500,
            RunTimeError::PreparserDirectiveNotSupported => 800,
            RunTimeError::PreparserScriptVersionRequest => 820,
            RunTimeError::InternalReturnMainType => 900,
            RunTimeError::InternalDecription => 910,
            RunTimeError::InternalUdtBufferShort => 915,
            RunTimeError::InternalReturnNoneNoCodePtr => 921,
            RunTimeError::InternalReturnNumberNoCodePtr => 922,
            RunTimeError::InternalReturnStringNoCodePtr => 923,
            RunTimeError::ClassNewNoIndexAllowed => 5010,
            RunTimeError::ClassNewDifferentClass => 5015,
            RunTimeError::ClassNewNoClass => 5020,
            RunTimeError::ClassNewExpectedNew => 5025,
            RunTimeError::ClassNotInitWithNew => 5030,
            RunTimeError::ClassSetNowAllowed => 5035,
            RunTimeError::ClassMethodPropertyNotfound => 5100,
            RunTimeError::ClassExpected => 5110,
            RunTimeError::TraceStopByUser => 11000,
            RunTimeError::ObfuscationFileNotValid => 12000,
            RunTimeError::ComGeneric => 30000,
        }
    }

    /// The error that a host code value names, if the taxonomy defines one.
    pub open spec fn spec_from_code(code: i32) -> Option<RunTimeError> {
        match code {
            0 => Some(RunTimeError::NoError),
            1 => Some(RunTimeError::Parens),
            2 => Some(RunTimeError::NoExp),
            3 => Some(RunTimeError::DivZero),
            4 => Some(RunTimeError::EqualExp),
            5 => Some(RunTimeError::NotVar),
            6 => Some(RunTimeError::LabTabFull),
            7 => Some(RunTimeError::DupLab),
            8 => Some(RunTimeError::UndefTab),
            9 => Some(RunTimeError::ThenExpected),
            10 => Some(RunTimeError::ToExpected),
            11 => Some(RunTimeError::TooManyFor),
            12 => Some(RunTimeError::NextWithoutFor),
            13 => Some(RunTimeError::MissingSemicolon),
            14 => Some(RunTimeError::CommandRetNoneInExpression),
            15 => Some(RunTimeError::MissQuote),
            16 => Some(RunTimeError::BadFile),
            17 => Some(RunTimeError::StrExpected),
            18 => Some(RunTimeError::UnknownKeyword),
            19 => Some(RunTimeError::MissingOpenparens),
            20 => Some(RunTimeError::MissingCloseparens),
            21 => Some(RunTimeError::MissingComma),
            22 => Some(RunTimeError::MissingSquarecloseparens),
            23 => Some(RunTimeError::EolIncorrect),
            24 => Some(RunTimeError::DoubleConcatenation),
            25 => Some(RunTimeError::CommandUnknownReturnedParameter),
            26 => Some(RunTimeError::PrimitiveStr),
            27 => Some(RunTimeError::PrimitiveNum),
            28 => Some(RunTimeError::PrintError),
            29 => Some(RunTimeError::PrintErrorNoendofline),
            30 => Some(RunTimeError::VariableNotDefined),
            31 => Some(RunTimeError::AtomTokenTypeNumeric),
            32 => Some(RunTimeError::IfWithoutEndif),
            33 => Some(RunTimeError::IfEndifWithoutIf),
            34 => Some(RunTimeError::TooManyWhile),
            35 => Some(RunTimeError::WhileWithoutWend),
            36 => Some(RunTimeError::DimTypeNotDefined),
            37 => Some(RunTimeError::ExitNoKeyFound),
            38 => Some(RunTimeError::NoEndFunctionFound),
            39 => Some(RunTimeError::FunctionNameDuplicate),
            40 => Some(RunTimeError::FunctionNameIsKey),
            41 => Some(RunTimeError::FunctionNameIsVar),
            42 => Some(RunTimeError::FunctionNameIsUdt),
            43 => Some(RunTimeError::EndNoKeyFound),
            44 => Some(RunTimeError::DimMissingAs),
            45 => Some(RunTimeError::UndefinedToken),
            46 => Some(RunTimeError::UnsupportedChar),
            47 => Some(RunTimeError::FunctionDeclareMissingAs),
            48 => Some(RunTimeError::DeclareFunctionOrSubExpected),
            49 => Some(RunTimeError::DoLoopWrongCondition),
            50 => Some(RunTimeError::MissingAlias),
            51 => Some(RunTimeError::MissingLib),
            52 => Some(RunTimeError::UndefinedVarType),
            53 => Some(RunTimeError::ParameterByrefIncorrectPtr),
            55 => Some(RunTimeError::LoopExpectedWhileOrUntil),
            58 => Some(RunTimeError::EndFunctionWithoutFunction),
            59 => Some(RunTimeError::EndFunctionFound),
            60 => Some(RunTimeError::IterateNoKeyFound),
            64 => Some(RunTimeError::WithEndWithError),
            65 => Some(RunTimeError::TooNestedDoloop),
            66 => Some(RunTimeError::DoLoopMissingDoOrLoop),
            70 => Some(RunTimeError::VariableNotDimensioned),
            71 => Some(RunTimeError::VariableIsNotArray),
            72 => Some(RunTimeError::VariableMustbeStringType),
            73 => Some(RunTimeError::RedimNewTypeNotSupported),
            74 => Some(RunTimeError::RedimPreserveNotValidAbsolute),
            75 => Some(RunTimeError::VariableMustBeUdtType),
            76 => Some(RunTimeError::KeywordNotExpected),
            77 => Some(RunTimeError::TokenNotExpected),
            80 => Some(RunTimeError::IncludeFileNotFound),
            85 => Some(RunTimeError::DimUnexpectedKeyword),
            90 => Some(RunTimeError::FunctionNotSupported),
            91 => Some(RunTimeError::ArrayFunctionNotSupported),
            100 => Some(RunTimeError::UdtElementNotFound),
            101 => Some(RunTimeError::UdtExpected),
            102 => Some(RunTimeError::UdtEquOrElementExpected),
            110 => Some(RunTimeError::AssignmentNotSupported),
            115 => Some(RunTimeError::RelationalExpected),
            120 => Some(RunTimeError::ApiLibNotFound),
            121 => Some(RunTimeError::ApiFunctionNotFoundInLib),
            122 => Some(RunTimeError::ApiGeneralAddressNotPresent),
            130 => Some(RunTimeError::CallNotSupportedStatement),
            131 => Some(RunTimeError::CallFunctionNotFound),
            133 => Some(RunTimeError::FunctionNotFound),
            134 => Some(RunTimeError::FunctionExpectedCallback),
            135 => Some(RunTimeError::EquateAlreadyDefined),
            136 => Some(RunTimeError::EquateAlreadyDefinedDifferent),
            142 => Some(RunTimeError::VariableNameDuplicateGlobal),
            144 => Some(RunTimeError::VariableNameDuplicateFunction),
            145 => Some(RunTimeError::VariableNameDuplicateLocal),
            146 => Some(RunTimeError::VariableNameDuplicate),
            150 => Some(RunTimeError::ForStepShouldBeNegative),
            151 => Some(RunTimeError::ForStepShouldBePositive),
            152 => Some(RunTimeError::ForExpectedAVariable),
            153 => Some(RunTimeError::ForStepIsZero),
            154 => Some(RunTimeError::ForVarMustBeNumeric),
            160 => Some(RunTimeError::AliasCommandNameExpected),
            161 => Some(RunTimeError::AliasAsExpected),
            162 => Some(RunTimeError::AliasUndefNotUndef),
            169 => Some(RunTimeError::TypeMissingEndUnion),
            170 => Some(RunTimeError::TypeMissingEndType),
            171 => Some(RunTimeError::TypeMissingEndClass),
            172 => Some(RunTimeError::TypeTypeNotDefined),
            173 => Some(RunTimeError::TypeMissingAs),
            174 => Some(RunTimeError::TypeNameMustbeUndefined),
            175 => Some(RunTimeError::TypeArrayMustbeDimensioned),
            176 => Some(RunTimeError::TypeStringsMustHaveSize),
            177 => Some(RunTimeError::TypeElementAlreadyPresent),
            178 => Some(RunTimeError::TypeElementAlreadyPresentInherit),
            179 => Some(RunTimeError::TypeDynstringInsideUnion),
            180 => Some(RunTimeError::NoEndRawtextFound),
            190 => Some(RunTimeError::BeginBlockUnsuported),
            191 => Some(RunTimeError::BeginConstMissingEnd),
            220 => Some(RunTimeError::FunctionParamUnrecognizedType),
            245 => Some(RunTimeError::DoWithoutLoop),
            246 => Some(RunTimeError::FunctionMissingAs),
            247 => Some(RunTimeError::RegexprMissingTo),
            248 => Some(RunTimeError::RegexprMissingIn),
            249 => Some(RunTimeError::SelectWithoutEndSelect),
            250 => Some(RunTimeError::DuplicateSymbol),
            251 => Some(RunTimeError::InvalidnumericChar),
            252 => Some(RunTimeError::InvalidDelimiter),
            253 => Some(RunTimeError::InvalidDataType),
            254 => Some(RunTimeError::VariableExpected),
            255 => Some(RunTimeError::VariableVariantExpected),
            270 => Some(RunTimeError::SelectMissingCase),
            271 => Some(RunTimeError::SelectErrorKindofOperation),
            272 => Some(RunTimeError::SelectCodeBetweenSelectCase),
            280 => Some(RunTimeError::StrptrVariableNotADynstringNum),
            281 => Some(RunTimeError::StrptrVariableNotADynstringVar),
            282 => Some(RunTimeError::StrptrVariableNotADynstringUdt),
            300 => Some(RunTimeError::ApicallRefExpected),
            400 => Some(RunTimeError::ArrayOutOfBound),
            500 => Some(RunTimeError::ModuleSpecific),
            800 => Some(RunTimeError::PreparserDirectiveNotSupported),
            820 => Some(RunTimeError::PreparserScriptVersionRequest),
            900 => Some(RunTimeError::InternalReturnMainType),
            910 => Some(RunTimeError::InternalDecription),
            915 => Some(RunTimeError::InternalUdtBufferShort),
            921 => Some(RunTimeError::InternalReturnNoneNoCodePtr),
            922 => Some(RunTimeError::InternalReturnNumberNoCodePtr),
            923 => Some(RunTimeError::InternalReturnStringNoCodePtr),
            5010 => Some(RunTimeError::ClassNewNoIndexAllowed),
            5015 => Some(RunTimeError::ClassNewDifferentClass),
            5020 => Some(RunTimeError::ClassNewNoClass),
            5025 => Some(RunTimeError::ClassNewExpectedNew),
            5030 => Some(RunTimeError::ClassNotInitWithNew),
            5035 => Some(RunTimeError::ClassSetNowAllowed),
            5100 => Some(RunTimeError::ClassMethodPropertyNotfound),
            5110 => Some(RunTimeError::ClassExpected),
            11000 => Some(RunTimeError::TraceStopByUser),
            12000 => Some(RunTimeError::ObfuscationFileNotValid),
            30000 => Some(RunTimeError::ComGeneric),
            _ => None,
        }
    }

    /// Decodes a code value read back from the host.
    pub fn from_code(code: i32) -> (r: Option<RunTimeError>)
        ensures
            r == RunTimeError::spec_from_code(code),
    {
        match code {
            0 => Some(RunTimeError::NoError),
            1 => Some(RunTimeError::Parens),
            2 => Some(RunTimeError::NoExp),
            3 => Some(RunTimeError::DivZero),
            4 => Some(RunTimeError::EqualExp),
            5 => Some(RunTimeError::NotVar),
            6 => Some(RunTimeError::LabTabFull),
            7 => Some(RunTimeError::DupLab),
            8 => Some(RunTimeError::UndefTab),
            9 => Some(RunTimeError::ThenExpected),
            10 => Some(RunTimeError::ToExpected),
            11 => Some(RunTimeError::TooManyFor),
            12 => Some(RunTimeError::NextWithoutFor),
            13 => Some(RunTimeError::MissingSemicolon),
            14 => Some(RunTimeError::CommandRetNoneInExpression),
            15 => Some(RunTimeError::MissQuote),
            16 => Some(RunTimeError::BadFile),
            17 => Some(RunTimeError::StrExpected),
            18 => Some(RunTimeError::UnknownKeyword),
            19 => Some(RunTimeError::MissingOpenparens),
            20 => Some(RunTimeError::MissingCloseparens),
            21 => Some(RunTimeError::MissingComma),
            22 => Some(RunTimeError::MissingSquarecloseparens),
            23 => Some(RunTimeError::EolIncorrect),
            24 => Some(RunTimeError::DoubleConcatenation),
            25 => Some(RunTimeError::CommandUnknownReturnedParameter),
            26 => Some(RunTimeError::PrimitiveStr),
            27 => Some(RunTimeError::PrimitiveNum),
            28 => Some(RunTimeError::PrintError),
            29 => Some(RunTimeError::PrintErrorNoendofline),
            30 => Some(RunTimeError::VariableNotDefined),
            31 => Some(RunTimeError::AtomTokenTypeNumeric),
            32 => Some(RunTimeError::IfWithoutEndif),
            33 => Some(RunTimeError::IfEndifWithoutIf),
            34 => Some(RunTimeError::TooManyWhile),
            35 => Some(RunTimeError::WhileWithoutWend),
            36 => Some(RunTimeError::DimTypeNotDefined),
            37 => Some(RunTimeError::ExitNoKeyFound),
            38 => Some(RunTimeError::NoEndFunctionFound),
            39 => Some(RunTimeError::FunctionNameDuplicate),
            40 => Some(RunTimeError::FunctionNameIsKey),
            41 => Some(RunTimeError::FunctionNameIsVar),
            42 => Some(RunTimeError::FunctionNameIsUdt),
            43 => Some(RunTimeError::EndNoKeyFound),
            44 => Some(RunTimeError::DimMissingAs),
            45 => Some(RunTimeError::UndefinedToken),
            46 => Some(RunTimeError::UnsupportedChar),
            47 => Some(RunTimeError::FunctionDeclareMissingAs),
            48 => Some(RunTimeError::DeclareFunctionOrSubExpected),
            49 => Some(RunTimeError::DoLoopWrongCondition),
            50 => Some(RunTimeError::MissingAlias),
            51 => Some(RunTimeError::MissingLib),
            52 => Some(RunTimeError::UndefinedVarType),
            53 => Some(RunTimeError::ParameterByrefIncorrectPtr),
            55 => Some(RunTimeError::LoopExpectedWhileOrUntil),
            58 => Some(RunTimeError::EndFunctionWithoutFunction),
            59 => Some(RunTimeError::EndFunctionFound),
            60 => Some(RunTimeError::IterateNoKeyFound),
            64 => Some(RunTimeError::WithEndWithError),
            65 => Some(RunTimeError::TooNestedDoloop),
            66 => Some(RunTimeError::DoLoopMissingDoOrLoop),
            70 => Some(RunTimeError::VariableNotDimensioned),
            71 => Some(RunTimeError::VariableIsNotArray),
            72 => Some(RunTimeError::VariableMustbeStringType),
            73 => Some(RunTimeError::RedimNewTypeNotSupported),
            74 => Some(RunTimeError::RedimPreserveNotValidAbsolute),
            75 => Some(RunTimeError::VariableMustBeUdtType),
            76 => Some(RunTimeError::KeywordNotExpected),
            77 => Some(RunTimeError::TokenNotExpected),
            80 => Some(RunTimeError::IncludeFileNotFound),
            85 => Some(RunTimeError::DimUnexpectedKeyword),
            90 => Some(RunTimeError::FunctionNotSupported),
            91 => Some(RunTimeError::ArrayFunctionNotSupported),
            100 => Some(RunTimeError::UdtElementNotFound),
            101 => Some(RunTimeError::UdtExpected),
            102 => Some(RunTimeError::UdtEquOrElementExpected),
            110 => Some(RunTimeError::AssignmentNotSupported),
            115 => Some(RunTimeError::RelationalExpected),
            120 => Some(RunTimeError::ApiLibNotFound),
            121 => Some(RunTimeError::ApiFunctionNotFoundInLib),
            122 => Some(RunTimeError::ApiGeneralAddressNotPresent),
            130 => Some(RunTimeError::CallNotSupportedStatement),
            131 => Some(RunTimeError::CallFunctionNotFound),
            133 => Some(RunTimeError::FunctionNotFound),
            134 => Some(RunTimeError::FunctionExpectedCallback),
            135 => Some(RunTimeError::EquateAlreadyDefined),
            136 => Some(RunTimeError::EquateAlreadyDefinedDifferent),
            142 => Some(RunTimeError::VariableNameDuplicateGlobal),
            144 => Some(RunTimeError::VariableNameDuplicateFunction),
            145 => Some(RunTimeError::VariableNameDuplicateLocal),
            146 => Some(RunTimeError::VariableNameDuplicate),
            150 => Some(RunTimeError::ForStepShouldBeNegative),
            151 => Some(RunTimeError::ForStepShouldBePositive),
            152 => Some(RunTimeError::ForExpectedAVariable),
            153 => Some(RunTimeError::ForStepIsZero),
            154 => Some(RunTimeError::ForVarMustBeNumeric),
            160 => Some(RunTimeError::AliasCommandNameExpected),
            161 => Some(RunTimeError::AliasAsExpected),
            162 => Some(RunTimeError::AliasUndefNotUndef),
            169 => Some(RunTimeError::TypeMissingEndUnion),
            170 => Some(RunTimeError::TypeMissingEndType),
            171 => Some(RunTimeError::TypeMissingEndClass),
            172 => Some(RunTimeError::TypeTypeNotDefined),
            173 => Some(RunTimeError::TypeMissingAs),
            174 => Some(RunTimeError::TypeNameMustbeUndefined),
            175 => Some(RunTimeError::TypeArrayMustbeDimensioned),
            176 => Some(RunTimeError::TypeStringsMustHaveSize),
            177 => Some(RunTimeError::TypeElementAlreadyPresent),
            178 => Some(RunTimeError::TypeElementAlreadyPresentInherit),
            179 => Some(RunTimeError::TypeDynstringInsideUnion),
            180 => Some(RunTimeError::NoEndRawtextFound),
            190 => Some(RunTimeError::BeginBlockUnsuported),
            191 => Some(RunTimeError::BeginConstMissingEnd),
            220 => Some(RunTimeError::FunctionParamUnrecognizedType),
            245 => Some(RunTimeError::DoWithoutLoop),
            246 => Some(RunTimeError::FunctionMissingAs),
            247 => Some(RunTimeError::RegexprMissingTo),
            248 => Some(RunTimeError::RegexprMissingIn),
            249 => Some(RunTimeError::SelectWithoutEndSelect),
            250 => Some(RunTimeError::DuplicateSymbol),
            251 => Some(RunTimeError::InvalidnumericChar),
            252 => Some(RunTimeError::InvalidDelimiter),
            253 => Some(RunTimeError::InvalidDataType),
            254 => Some(RunTimeError::VariableExpected),
            255 => Some(RunTimeError::VariableVariantExpected),
            270 => Some(RunTimeError::SelectMissingCase),
            271 => Some(RunTimeError::SelectErrorKindofOperation),
            272 => Some(RunTimeError::SelectCodeBetweenSelectCase),
            280 => Some(RunTimeError::StrptrVariableNotADynstringNum),
            281 => Some(RunTimeError::StrptrVariableNotADynstringVar),
            282 => Some(RunTimeError::StrptrVariableNotADynstringUdt),
            300 => Some(RunTimeError::ApicallRefExpected),
            400 => Some(RunTimeError::ArrayOutOfBound),
            500 => Some(RunTimeError::ModuleSpecific),
            800 => Some(RunTimeError::PreparserDirectiveNotSupported),
            820 => Some(RunTimeError::PreparserScriptVersionRequest),
            900 => Some(RunTimeError::InternalReturnMainType),
            910 => Some(RunTimeError::InternalDecription),
            915 => Some(RunTimeError::InternalUdtBufferShort),
            921 => Some(RunTimeError::InternalReturnNoneNoCodePtr),
            922 => Some(RunTimeError::InternalReturnNumberNoCodePtr),
            923 => Some(RunTimeError::InternalReturnStringNoCodePtr),
            5010 => Some(RunTimeError::ClassNewNoIndexAllowed),
            5015 => Some(RunTimeError::ClassNewDifferentClass),
            5020 => Some(RunTimeError::ClassNewNoClass),
            5025 => Some(RunTimeError::ClassNewExpectedNew),
            5030 => Some(RunTimeError::ClassNotInitWithNew),
            5035 => Some(RunTimeError::ClassSetNowAllowed),
            5100 => Some(RunTimeError::ClassMethodPropertyNotfound),
            5110 => Some(RunTimeError::ClassExpected),
            11000 => Some(RunTimeError::TraceStopByUser),
            12000 => Some(RunTimeError::ObfuscationFileNotValid),
            30000 => Some(RunTimeError::ComGeneric),
            _ => None,
        }
    }
}

/// Every error code encodes to a value that decodes back to the same error:
/// the mirrored taxonomy has a stable, distinct name for each value the host
/// defines.
pub proof fn lemma_error_code_round_trip(e: RunTimeError)
    ensures
        RunTimeError::spec_from_code(e.spec_code()) == Some(e),
{
}

/// A value that decodes to an error is exactly that error's own code value:
/// decoding loses nothing.
pub proof fn lemma_error_decode_encode(code: i32, e: RunTimeError)
    requires
        RunTimeError::spec_from_code(code) == Some(e),
    ensures
        e.spec_code() == code,
{
}

/// No two errors share a code value.
pub proof fn lemma_error_codes_distinct(a: RunTimeError, b: RunTimeError)
    requires
        a.spec_code() == b.spec_code(),
    ensures
        a == b,
{
    lemma_error_code_round_trip(a);
    lemma_error_code_round_trip(b);
}

} // verus!
