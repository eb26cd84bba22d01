use std::str::FromStr;

use web_core::env::{
    list, list_parsed, required, required_var, required_var_parsed, var_parsed, EnvError,
};
use web_core::text::{char_is_whitespace, from_chars, to_chars, trim_bounds};

const TEST_VAR: &str = "WEB_ENV_VARS_TEST_VAR";

fn set(content: &str) -> Result<Option<String>, EnvError> {
    Ok(Some(content.to_string()))
}

fn unset() -> Result<Option<String>, EnvError> {
    Ok(None)
}

#[test]
fn test_required_var() {
    match required_var(TEST_VAR, set("test")) {
        Ok(content) => assert_eq!(content, "test"),
        Err(error) => panic!("{}", error.message()),
    }

    match required_var(TEST_VAR, unset()) {
        Ok(content) => panic!("{}", content),
        Err(error) => assert_eq!(
            error.message(),
            "Failed to find required WEB_ENV_VARS_TEST_VAR environment variable."
        ),
    }
}

#[test]
fn test_var_parsed() {
    match var_parsed(TEST_VAR, set("42"), i32::from_str) {
        Ok(parsed) => assert_eq!(parsed, Some(42)),
        Err(error) => panic!("{}", error.message()),
    }

    match var_parsed(TEST_VAR, set("test"), i32::from_str) {
        Ok(parsed) => panic!("{:?}", parsed),
        Err(error) => {
            assert_eq!(error.message(), "Failed to parse WEB_ENV_VARS_TEST_VAR environment variable.")
        }
    }

    match var_parsed(TEST_VAR, unset(), i32::from_str) {
        Ok(parsed) => assert_eq!(parsed, None),
        Err(error) => panic!("{}", error.message()),
    }
}

#[test]
fn test_required_var_parsed() {
    match required_var_parsed(TEST_VAR, set("42"), i32::from_str) {
        Ok(parsed) => assert_eq!(parsed, 42),
        Err(error) => panic!("{}", error.message()),
    }

    match required_var_parsed(TEST_VAR, set("test"), i32::from_str) {
        Ok(parsed) => panic!("{}", parsed),
        Err(error) => {
            assert_eq!(error.message(), "Failed to parse WEB_ENV_VARS_TEST_VAR environment variable.")
        }
    }

    match required_var_parsed(TEST_VAR, unset(), i32::from_str) {
        Ok(parsed) => panic!("{}", parsed),
        Err(error) => assert_eq!(
            error.message(),
            "Failed to find required WEB_ENV_VARS_TEST_VAR environment variable."
        ),
    }
}

#[test]
fn test_list() {
    assert_eq!(list(set("test")).ok().unwrap(), vec!["test"]);

    assert_eq!(list(set("test, foo,   bar   ")).ok().unwrap(), vec!["test", "foo", "bar"]);

    assert_eq!(list(set("")).ok().unwrap(), Vec::<String>::new());

    assert_eq!(list(unset()).ok().unwrap(), Vec::<String>::new());
}

#[test]
fn test_list_parsed() {
    assert_eq!(list_parsed(TEST_VAR, set("42"), i32::from_str).ok().unwrap(), vec![42]);

    assert_eq!(
        list_parsed(TEST_VAR, set("42, 1,   -53   "), i32::from_str).ok().unwrap(),
        vec![42, 1, -53]
    );

    let error = list_parsed(TEST_VAR, set("42, what"), i32::from_str).err().unwrap();
    assert_eq!(
        error.message(),
        "Failed to parse value \"what\" of WEB_ENV_VARS_TEST_VAR environment variable."
    );

    assert_eq!(list_parsed(TEST_VAR, set(""), i32::from_str).ok().unwrap(), Vec::<i32>::new());

    assert_eq!(list_parsed(TEST_VAR, unset(), i32::from_str).ok().unwrap(), Vec::<i32>::new());
}

#[test]
fn a_list_is_what_the_standard_library_splits_and_trims() {
    for content in [
        "a",
        ",",
        ",,",
        " ,a, ",
        "a,b",
        "a , b\t,\n c \u{a0},\u{3000}d\u{2009}",
        "  ",
        "é, ü ,日本",
        "a,,b,",
        " a b , c d ",
    ] {
        let expected: Vec<String> = content.split(',').map(str::trim).map(String::from).collect();
        assert_eq!(list(set(content)).ok().unwrap(), expected, "{:?}", content);
    }
}

#[test]
fn white_space_is_what_the_standard_library_calls_so() {
    for code in 0..=0x10FFFFu32 {
        if let Some(c) = char::from_u32(code) {
            assert_eq!(char_is_whitespace(c), c.is_whitespace(), "{:x}", code);
        }
    }
}

#[test]
fn characters_go_back_and_forth() {
    let text = " a é 日本\t";
    let chars = to_chars(text);
    assert_eq!(chars, text.chars().collect::<Vec<char>>());
    assert_eq!(from_chars(&chars, 0, chars.len()), text);
    assert_eq!(from_chars(&chars, 3, 6), "é 日");
    assert_eq!(from_chars(&chars, 2, 2), "");
    assert_eq!(trim_bounds(&chars, 0, chars.len()), (1, 7));
    assert_eq!(trim_bounds(&chars, 0, 1), (1, 1));
    assert_eq!(trim_bounds(&chars, 1, 4), (1, 4));
}

#[test]
fn the_first_item_that_is_refused_ends_the_list() {
    let error = list_parsed(TEST_VAR, set("1, x, y"), i32::from_str).err().unwrap();
    assert!(matches!(
        &error,
        EnvError::ParseValue { key, value } if key == TEST_VAR && value == "x"
    ));
    let error = list_parsed(TEST_VAR, set(" ,1"), i32::from_str).err().unwrap();
    assert_eq!(
        error.message(),
        "Failed to parse value \"\" of WEB_ENV_VARS_TEST_VAR environment variable."
    );
}

#[test]
fn a_read_error_is_handed_on() {
    let failed = || Err(EnvError::Read { message: "not unicode".to_string() });

    assert_eq!(required_var(TEST_VAR, failed()).err().unwrap().message(), "not unicode");
    assert_eq!(
        var_parsed(TEST_VAR, failed(), i32::from_str).err().unwrap().message(),
        "not unicode"
    );
    assert_eq!(
        required_var_parsed(TEST_VAR, failed(), i32::from_str).err().unwrap().message(),
        "not unicode"
    );
    assert_eq!(list(failed()).err().unwrap().message(), "not unicode");
    assert_eq!(
        list_parsed(TEST_VAR, failed(), i32::from_str).err().unwrap().message(),
        "not unicode"
    );
    assert_eq!(
        required::<i32>(Err(EnvError::Read { message: "not unicode".to_string() }), TEST_VAR)
            .err()
            .unwrap()
            .message(),
        "not unicode"
    );
}

#[test]
fn a_required_value_has_to_be_there() {
    assert_eq!(required(Ok(Some(7)), TEST_VAR).ok().unwrap(), 7);
    assert!(matches!(
        required::<i32>(Ok(None), TEST_VAR),
        Err(EnvError::Missing { key }) if key == TEST_VAR
    ));
}
