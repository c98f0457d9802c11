use seedling::fake::Generator;
use seedling::naming::{capitalize, replace_first};
use seedling::value::{render_boolean, render_integer, render_text, IntoValue, Value};

#[test]
fn text_is_quoted_and_escaped() {
    assert_eq!(render_text("abc"), "\"abc\"");
    assert_eq!(render_text(""), "\"\"");
    assert_eq!(render_text("say \"hi\""), "\"say \"\"hi\"\"\"");
    assert_eq!("o'neil".to_string().as_value(), "\"o'neil\"");
}

#[test]
fn integers_render_in_decimal() {
    assert_eq!(render_integer(0), "0");
    assert_eq!(render_integer(9), "9");
    assert_eq!(render_integer(1234), "1234");
    assert_eq!(render_integer(-56), "-56");
    assert_eq!(render_integer(i64::MAX), "9223372036854775807");
    assert_eq!(render_integer(i64::MIN), "-9223372036854775808");
    assert_eq!(42i64.as_value(), "42");
}

#[test]
fn booleans_render_as_words() {
    assert_eq!(render_boolean(true), "true");
    assert_eq!(false.as_value(), "false");
    assert_eq!(Value::Boolean(true).as_value(), "true");
}

#[test]
fn capitalize_upper_cases_the_first_character() {
    assert_eq!(capitalize("users"), "Users");
    assert_eq!(capitalize(""), "");
    assert_eq!(capitalize("éa"), "Éa");
    assert_eq!(capitalize("ßx"), "SSx");
    assert_eq!(capitalize("Id"), "Id");
    assert_eq!(replace_first("users", "XY"), "XYsers");
    assert_eq!(replace_first("", "XY"), "");
}

#[test]
fn generators_draw_values_of_their_kind() {
    assert_eq!(
        Generator::Constant(Value::Integer(3)).generate(),
        Value::Integer(3)
    );
    assert!(matches!(Generator::Flag.generate(), Value::Boolean(_)));
    match Generator::Phone.generate() {
        Value::Text(p) => assert!(!p.is_empty()),
        other => panic!("{other:?}"),
    }
    match Generator::LastName.generate() {
        Value::Text(p) => assert!(!p.is_empty()),
        other => panic!("{other:?}"),
    }
    match Generator::Uuid.generate() {
        Value::Text(a) => match Generator::Uuid.generate() {
            Value::Text(b) => assert_ne!(a, b),
            other => panic!("{other:?}"),
        },
        other => panic!("{other:?}"),
    }
}
