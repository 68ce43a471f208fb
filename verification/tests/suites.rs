use ofx_registry::suites::{suite_call, SuiteTypes, Suites};
use ofx_registry::types::Error;
use std::sync::Arc;

struct TestTypes;

impl SuiteTypes for TestTypes {
    type ImageEffect = &'static str;
    type Property = u8;
    type Parameter = u16;
    type Memory = u32;
    type MultiThread = u64;
    type Message = i8;
    type MessageV2 = i16;
    type Progress = i32;
    type ProgressV2 = i64;
    type TimeLine = bool;
    type ParametricParameter = char;
    type ImageEffectOpenGLRender = usize;
}

fn suites(render: Option<usize>) -> Suites<TestTypes> {
    Suites::new(
        "effect",
        1,
        2,
        3,
        4,
        5,
        Some(6),
        7,
        None,
        true,
        Some('p'),
        render,
    )
}

#[test]
fn suites_hand_out_what_they_were_made_of() {
    let suites = suites(Some(8));
    assert_eq!(*suites.image_effect(), "effect");
    assert_eq!(*suites.property(), 1);
    assert_eq!(*suites.parameter(), 2);
    assert_eq!(*suites.multi_thread(), 4);
    assert_eq!(suites.image_effect_opengl_render().map(|suite| *suite), Some(8));
}

#[test]
fn host_may_lack_the_render_suite() {
    assert!(suites(None).image_effect_opengl_render().is_none());
}

#[test]
fn clones_share_their_suites() {
    let suites = suites(Some(8));
    let clone = suites.clone();
    assert!(Arc::ptr_eq(&suites.image_effect(), &clone.image_effect()));
    assert!(Arc::ptr_eq(&suites.property(), &clone.property()));
    assert!(Arc::ptr_eq(&suites.parameter(), &clone.parameter()));
    assert!(Arc::ptr_eq(&suites.multi_thread(), &clone.multi_thread()));
    assert_eq!(clone.image_effect_opengl_render().map(|suite| *suite), Some(8));
}

#[test]
fn suite_function_is_called_where_there_is_one() {
    let doubled: Result<i32, Error<u8>> = suite_call(Some(|x: i32| x * 2), 21);
    assert_eq!(doubled, Ok(42));
}

#[test]
fn missing_suite_function_is_an_error() {
    let function: Option<fn(i32) -> i32> = None;
    let result: Result<i32, Error<u8>> = suite_call(function, 21);
    assert_eq!(result, Err(Error::SuiteNotInitialized));
}
