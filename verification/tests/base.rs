use rubber_duck::base::AsOption;
use rubber_duck::base::Call;

fn test_call(name: String) -> String {
    name
}

fn join(a: String, b: String, c: String) -> String {
    format!("{}-{}-{}", a, b, c)
}

#[test]
fn lib_it_works() {
    assert_eq!(2 + 2, 4);
}

#[test]
fn test() {
    let tt = test_call;
    tt.apply(("Hello".to_string(),));
}

#[test]
fn apply_passes_the_tuple_on_in_order() {
    let tt = test_call;
    assert_eq!(tt.apply(("Hello".to_string(),)), "Hello");
    let three = join;
    assert_eq!(
        three.apply(("a".to_string(), "b".to_string(), "c".to_string())),
        "a-b-c"
    );
    let nine = |a: u8, b: u8, c: u8, d: u8, e: u8, f: u8, g: u8, h: u8, i: u8| -> Vec<u8> {
        vec![a, b, c, d, e, f, g, h, i]
    };
    assert_eq!(
        nine.apply((1, 2, 3, 4, 5, 6, 7, 8, 9)),
        vec![1, 2, 3, 4, 5, 6, 7, 8, 9]
    );
}

#[test]
fn bare_and_wrapped_values_normalise_alike() {
    let bare: Option<u32> = 7u32.as_option();
    let wrapped: Option<u32> = Some(7u32).as_option();
    assert_eq!(bare, Some(7));
    assert_eq!(bare, wrapped);
    let absent: Option<u32> = None::<u32>.as_option();
    assert_eq!(absent, None);
}

#[test]
fn an_optional_of_an_optional_is_kept_as_it_is() {
    let nested: Option<Option<u8>> = Some(None::<u8>).as_option();
    assert_eq!(nested, Some(None));
    let wrapped_once: Option<Option<u8>> = None::<u8>.as_option();
    assert_eq!(wrapped_once, Some(None));
}
