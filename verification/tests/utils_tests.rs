use life_grid::utils::ResultContextExt;

#[test]
fn context_prefixes_an_error() {
    let r: Result<i32, String> = Err(String::from("it broke"));
    let with_ctx = r.context("reading the board");
    assert_eq!(with_ctx, Err(String::from("reading the board: it broke")));
}

#[test]
fn context_leaves_a_success_alone() {
    let r: Result<i32, String> = Ok(7);
    assert_eq!(r.context("reading the board"), Ok(7));
}
