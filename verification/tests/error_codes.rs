//! The mirrored runtime error code space: every value the host defines
//! decodes to its own variant, every variant encodes to its value, and the
//! values the host leaves unused decode to nothing.

use thincore::error::RunTimeError;

#[test]
fn every_code_round_trips() {
    let all = [
        (RunTimeError::NoError, 0),
        (RunTimeError::Parens, 1),
        (RunTimeError::NoExp, 2),
        (RunTimeError::DivZero, 3),
        (RunTimeError::EqualExp, 4),
        (RunTimeError::NotVar, 5),
        (RunTimeError::LabTabFull, 6),
        (RunTimeError::DupLab, 7),
        (RunTimeError::UndefTab, 8),
        (RunTimeError::ThenExpected, 9),
        (RunTimeError::ToExpected, 10),
        (RunTimeError::TooManyFor, 11),
        (RunTimeError::NextWithoutFor, 12),
        (RunTimeError::MissingSemicolon, 13),
        (RunTimeError::CommandRetNoneInExpression, 14),
        (RunTimeError::MissQuote, 15),
        (RunTimeError::BadFile, 16),
        (RunTimeError::StrExpected, 17),
        (RunTimeError::UnknownKeyword, 18),
        (RunTimeError::MissingOpenparens, 19),
        (RunTimeError::MissingCloseparens, 20),
        (RunTimeError::MissingComma, 21),
        (RunTimeError::MissingSquarecloseparens, 22),
        (RunTimeError::EolIncorrect, 23),
        (RunTimeError::DoubleConcatenation, 24),
        (RunTimeError::CommandUnknownReturnedParameter, 25),
        (RunTimeError::PrimitiveStr, 26),
        (RunTimeError::PrimitiveNum, 27),
        (RunTimeError::PrintError, 28),
        (RunTimeError::PrintErrorNoendofline, 29),
        (RunTimeError::VariableNotDefined, 30),
        (RunTimeError::AtomTokenTypeNumeric, 31),
        (RunTimeError::IfWithoutEndif, 32),
        (RunTimeError::IfEndifWithoutIf, 33),
        (RunTimeError::TooManyWhile, 34),
        (RunTimeError::WhileWithoutWend, 35),
        (RunTimeError::DimTypeNotDefined, 36),
        (RunTimeError::ExitNoKeyFound, 37),
        (RunTimeError::NoEndFunctionFound, 38),
        (RunTimeError::FunctionNameDuplicate, 39),
        (RunTimeError::FunctionNameIsKey, 40),
        (RunTimeError::FunctionNameIsVar, 41),
        (RunTimeError::FunctionNameIsUdt, 42),
        (RunTimeError::EndNoKeyFound, 43),
        (RunTimeError::DimMissingAs, 44),
        (RunTimeError::UndefinedToken, 45),
        (RunTimeError::UnsupportedChar, 46),
        (RunTimeError::FunctionDeclareMissingAs, 47),
        (RunTimeError::DeclareFunctionOrSubExpected, 48),
        (RunTimeError::DoLoopWrongCondition, 49),
        (RunTimeError::MissingAlias, 50),
        (RunTimeError::MissingLib, 51),
        (RunTimeError::UndefinedVarType, 52),
        (RunTimeError::ParameterByrefIncorrectPtr, 53),
        (RunTimeError::LoopExpectedWhileOrUntil, 55),
        (RunTimeError::EndFunctionWithoutFunction, 58),
        (RunTimeError::EndFunctionFound, 59),
        (RunTimeError::IterateNoKeyFound, 60),
        (RunTimeError::WithEndWithError, 64),
        (RunTimeError::TooNestedDoloop, 65),
        (RunTimeError::DoLoopMissingDoOrLoop, 66),
        (RunTimeError::VariableNotDimensioned, 70),
        (RunTimeError::VariableIsNotArray, 71),
        (RunTimeError::VariableMustbeStringType, 72),
        (RunTimeError::RedimNewTypeNotSupported, 73),
        (RunTimeError::RedimPreserveNotValidAbsolute, 74),
        (RunTimeError::VariableMustBeUdtType, 75),
        (RunTimeError::KeywordNotExpected, 76),
        (RunTimeError::TokenNotExpected, 77),
        (RunTimeError::IncludeFileNotFound, 80),
        (RunTimeError::DimUnexpectedKeyword, 85),
        (RunTimeError::FunctionNotSupported, 90),
        (RunTimeError::ArrayFunctionNotSupported, 91),
        (RunTimeError::UdtElementNotFound, 100),
        (RunTimeError::UdtExpected, 101),
        (RunTimeError::UdtEquOrElementExpected, 102),
        (RunTimeError::AssignmentNotSupported, 110),
        (RunTimeError::RelationalExpected, 115),
        (RunTimeError::ApiLibNotFound, 120),
        (RunTimeError::ApiFunctionNotFoundInLib, 121),
        (RunTimeError::ApiGeneralAddressNotPresent, 122),
        (RunTimeError::CallNotSupportedStatement, 130),
        (RunTimeError::CallFunctionNotFound, 131),
        (RunTimeError::FunctionNotFound, 133),
        (RunTimeError::FunctionExpectedCallback, 134),
        (RunTimeError::EquateAlreadyDefined, 135),
        (RunTimeError::EquateAlreadyDefinedDifferent, 136),
        (RunTimeError::VariableNameDuplicateGlobal, 142),
        (RunTimeError::VariableNameDuplicateFunction, 144),
        (RunTimeError::VariableNameDuplicateLocal, 145),
        (RunTimeError::VariableNameDuplicate, 146),
        (RunTimeError::ForStepShouldBeNegative, 150),
        (RunTimeError::ForStepShouldBePositive, 151),
        (RunTimeError::ForExpectedAVariable, 152),
        (RunTimeError::ForStepIsZero, 153),
        (RunTimeError::ForVarMustBeNumeric, 154),
        (RunTimeError::AliasCommandNameExpected, 160),
        (RunTimeError::AliasAsExpected, 161),
        (RunTimeError::AliasUndefNotUndef, 162),
        (RunTimeError::TypeMissingEndUnion, 169),
        (RunTimeError::TypeMissingEndType, 170),
        (RunTimeError::TypeMissingEndClass, 171),
        (RunTimeError::TypeTypeNotDefined, 172),
        (RunTimeError::TypeMissingAs, 173),
        (RunTimeError::TypeNameMustbeUndefined, 174),
        (RunTimeError::TypeArrayMustbeDimensioned, 175),
        (RunTimeError::TypeStringsMustHaveSize, 176),
        (RunTimeError::TypeElementAlreadyPresent, 177),
        (RunTimeError::TypeElementAlreadyPresentInherit, 178),
        (RunTimeError::TypeDynstringInsideUnion, 179),
        (RunTimeError::NoEndRawtextFound, 180),
        (RunTimeError::BeginBlockUnsuported, 190),
        (RunTimeError::BeginConstMissingEnd, 191),
        (RunTimeError::FunctionParamUnrecognizedType, 220),
        (RunTimeError::DoWithoutLoop, 245),
        (RunTimeError::FunctionMissingAs, 246),
        (RunTimeError::RegexprMissingTo, 247),
        (RunTimeError::RegexprMissingIn, 248),
        (RunTimeError::SelectWithoutEndSelect, 249),
        (RunTimeError::DuplicateSymbol, 250),
        (RunTimeError::InvalidnumericChar, 251),
        (RunTimeError::InvalidDelimiter, 252),
        (RunTimeError::InvalidDataType, 253),
        (RunTimeError::VariableExpected, 254),
        (RunTimeError::VariableVariantExpected, 255),
        (RunTimeError::SelectMissingCase, 270),
        (RunTimeError::SelectErrorKindofOperation, 271),
        (RunTimeError::SelectCodeBetweenSelectCase, 272),
        (RunTimeError::StrptrVariableNotADynstringNum, 280),
        (RunTimeError::StrptrVariableNotADynstringVar, 281),
        (RunTimeError::StrptrVariableNotADynstringUdt, 282),
        (RunTimeError::ApicallRefExpected, 300),
        (RunTimeError::ArrayOutOfBound, 400),
        (RunTimeError::ModuleSpecific, 500),
        (RunTimeError::PreparserDirectiveNotSupported, 800),
        (RunTimeError::PreparserScriptVersionRequest, 820),
        (RunTimeError::InternalReturnMainType, 900),
        (RunTimeError::InternalDecription, 910),
        (RunTimeError::InternalUdtBufferShort, 915),
        (RunTimeError::InternalReturnNoneNoCodePtr, 921),
        (RunTimeError::InternalReturnNumberNoCodePtr, 922),
        (RunTimeError::InternalReturnStringNoCodePtr, 923),
        (RunTimeError::ClassNewNoIndexAllowed, 5010),
        (RunTimeError::ClassNewDifferentClass, 5015),
        (RunTimeError::ClassNewNoClass, 5020),
        (RunTimeError::ClassNewExpectedNew, 5025),
        (RunTimeError::ClassNotInitWithNew, 5030),
        (RunTimeError::ClassSetNowAllowed, 5035),
        (RunTimeError::ClassMethodPropertyNotfound, 5100),
        (RunTimeError::ClassExpected, 5110),
        (RunTimeError::TraceStopByUser, 11000),
        (RunTimeError::ObfuscationFileNotValid, 12000),
        (RunTimeError::ComGeneric, 30000),
    ];
    for (e, v) in all {
        assert_eq!(e.code(), v);
        assert_eq!(RunTimeError::from_code(v), Some(e));
    }
}

#[test]
fn codes_are_distinct() {
    let all = [
        RunTimeError::NoError,
        RunTimeError::Parens,
        RunTimeError::NoExp,
        RunTimeError::DivZero,
        RunTimeError::EqualExp,
        RunTimeError::NotVar,
        RunTimeError::LabTabFull,
        RunTimeError::DupLab,
        RunTimeError::UndefTab,
        RunTimeError::ThenExpected,
        RunTimeError::ToExpected,
        RunTimeError::TooManyFor,
        RunTimeError::NextWithoutFor,
        RunTimeError::MissingSemicolon,
        RunTimeError::CommandRetNoneInExpression,
        RunTimeError::MissQuote,
        RunTimeError::BadFile,
        RunTimeError::StrExpected,
        RunTimeError::UnknownKeyword,
        RunTimeError::MissingOpenparens,
        RunTimeError::MissingCloseparens,
        RunTimeError::MissingComma,
        RunTimeError::MissingSquarecloseparens,
        RunTimeError::EolIncorrect,
        RunTimeError::DoubleConcatenation,
        RunTimeError::CommandUnknownReturnedParameter,
        RunTimeError::PrimitiveStr,
        RunTimeError::PrimitiveNum,
        RunTimeError::PrintError,
        RunTimeError::PrintErrorNoendofline,
        RunTimeError::VariableNotDefined,
        RunTimeError::AtomTokenTypeNumeric,
        RunTimeError::IfWithoutEndif,
        RunTimeError::IfEndifWithoutIf,
        RunTimeError::TooManyWhile,
        RunTimeError::WhileWithoutWend,
        RunTimeError::DimTypeNotDefined,
        RunTimeError::ExitNoKeyFound,
        RunTimeError::NoEndFunctionFound,
        RunTimeError::FunctionNameDuplicate,
        RunTimeError::FunctionNameIsKey,
        RunTimeError::FunctionNameIsVar,
        RunTimeError::FunctionNameIsUdt,
        RunTimeError::EndNoKeyFound,
        RunTimeError::DimMissingAs,
        RunTimeError::UndefinedToken,
        RunTimeError::UnsupportedChar,
        RunTimeError::FunctionDeclareMissingAs,
        RunTimeError::DeclareFunctionOrSubExpected,
        RunTimeError::DoLoopWrongCondition,
        RunTimeError::MissingAlias,
        RunTimeError::MissingLib,
        RunTimeError::UndefinedVarType,
        RunTimeError::ParameterByrefIncorrectPtr,
        RunTimeError::LoopExpectedWhileOrUntil,
        RunTimeError::EndFunctionWithoutFunction,
        RunTimeError::EndFunctionFound,
        RunTimeError::IterateNoKeyFound,
        RunTimeError::WithEndWithError,
        RunTimeError::TooNestedDoloop,
        RunTimeError::DoLoopMissingDoOrLoop,
        RunTimeError::VariableNotDimensioned,
        RunTimeError::VariableIsNotArray,
        RunTimeError::VariableMustbeStringType,
        RunTimeError::RedimNewTypeNotSupported,
        RunTimeError::RedimPreserveNotValidAbsolute,
        RunTimeError::VariableMustBeUdtType,
        RunTimeError::KeywordNotExpected,
        RunTimeError::TokenNotExpected,
        RunTimeError::IncludeFileNotFound,
        RunTimeError::DimUnexpectedKeyword,
        RunTimeError::FunctionNotSupported,
        RunTimeError::ArrayFunctionNotSupported,
        RunTimeError::UdtElementNotFound,
        RunTimeError::UdtExpected,
        RunTimeError::UdtEquOrElementExpected,
        RunTimeError::AssignmentNotSupported,
        RunTimeError::RelationalExpected,
        RunTimeError::ApiLibNotFound,
        RunTimeError::ApiFunctionNotFoundInLib,
        RunTimeError::ApiGeneralAddressNotPresent,
        RunTimeError::CallNotSupportedStatement,
        RunTimeError::CallFunctionNotFound,
        RunTimeError::FunctionNotFound,
        RunTimeError::FunctionExpectedCallback,
        RunTimeError::EquateAlreadyDefined,
        RunTimeError::EquateAlreadyDefinedDifferent,
        RunTimeError::VariableNameDuplicateGlobal,
        RunTimeError::VariableNameDuplicateFunction,
        RunTimeError::VariableNameDuplicateLocal,
        RunTimeError::VariableNameDuplicate,
        RunTimeError::ForStepShouldBeNegative,
        RunTimeError::ForStepShouldBePositive,
        RunTimeError::ForExpectedAVariable,
        RunTimeError::ForStepIsZero,
        RunTimeError::ForVarMustBeNumeric,
        RunTimeError::AliasCommandNameExpected,
        RunTimeError::AliasAsExpected,
        RunTimeError::AliasUndefNotUndef,
        RunTimeError::TypeMissingEndUnion,
        RunTimeError::TypeMissingEndType,
        RunTimeError::TypeMissingEndClass,
        RunTimeError::TypeTypeNotDefined,
        RunTimeError::TypeMissingAs,
        RunTimeError::TypeNameMustbeUndefined,
        RunTimeError::TypeArrayMustbeDimensioned,
        RunTimeError::TypeStringsMustHaveSize,
        RunTimeError::TypeElementAlreadyPresent,
        RunTimeError::TypeElementAlreadyPresentInherit,
        RunTimeError::TypeDynstringInsideUnion,
        RunTimeError::NoEndRawtextFound,
        RunTimeError::BeginBlockUnsuported,
        RunTimeError::BeginConstMissingEnd,
        RunTimeError::FunctionParamUnrecognizedType,
        RunTimeError::DoWithoutLoop,
        RunTimeError::FunctionMissingAs,
        RunTimeError::RegexprMissingTo,
        RunTimeError::RegexprMissingIn,
        RunTimeError::SelectWithoutEndSelect,
        RunTimeError::DuplicateSymbol,
        RunTimeError::InvalidnumericChar,
        RunTimeError::InvalidDelimiter,
        RunTimeError::InvalidDataType,
        RunTimeError::VariableExpected,
        RunTimeError::VariableVariantExpected,
        RunTimeError::SelectMissingCase,
        RunTimeError::SelectErrorKindofOperation,
        RunTimeError::SelectCodeBetweenSelectCase,
        RunTimeError::StrptrVariableNotADynstringNum,
        RunTimeError::StrptrVariableNotADynstringVar,
        RunTimeError::StrptrVariableNotADynstringUdt,
        RunTimeError::ApicallRefExpected,
        RunTimeError::ArrayOutOfBound,
        RunTimeError::ModuleSpecific,
        RunTimeError::PreparserDirectiveNotSupported,
        RunTimeError::PreparserScriptVersionRequest,
        RunTimeError::InternalReturnMainType,
        RunTimeError::InternalDecription,
        RunTimeError::InternalUdtBufferShort,
        RunTimeError::InternalReturnNoneNoCodePtr,
        RunTimeError::InternalReturnNumberNoCodePtr,
        RunTimeError::InternalReturnStringNoCodePtr,
        RunTimeError::ClassNewNoIndexAllowed,
        RunTimeError::ClassNewDifferentClass,
        RunTimeError::ClassNewNoClass,
        RunTimeError::ClassNewExpectedNew,
        RunTimeError::ClassNotInitWithNew,
        RunTimeError::ClassSetNowAllowed,
        RunTimeError::ClassMethodPropertyNotfound,
        RunTimeError::ClassExpected,
        RunTimeError::TraceStopByUser,
        RunTimeError::ObfuscationFileNotValid,
        RunTimeError::ComGeneric,
    ];
    for i in 0..all.len() {
        for j in 0..all.len() {
            if i != j {
                assert_ne!(all[i].code(), all[j].code());
            }
        }
    }
}

#[test]
fn unused_values_decode_to_nothing() {
    for v in [-1, 54, 56, 57, 61, 63, 67, 86, 99, 134567, i32::MIN, i32::MAX] {
        assert_eq!(RunTimeError::from_code(v), None);
    }
}

#[test]
fn sample_codes_match_the_host_taxonomy() {
    assert_eq!(RunTimeError::NoError.code(), 0);
    assert_eq!(RunTimeError::DivZero.code(), 3);
    assert_eq!(RunTimeError::MissingComma.code(), 21);
    assert_eq!(RunTimeError::ArrayOutOfBound.code(), 400);
    assert_eq!(RunTimeError::ClassExpected.code(), 5110);
    assert_eq!(RunTimeError::ComGeneric.code(), 30000);
    assert_eq!(RunTimeError::from_code(46), Some(RunTimeError::UnsupportedChar));
    assert_eq!(RunTimeError::from_code(11000), Some(RunTimeError::TraceStopByUser));
}
