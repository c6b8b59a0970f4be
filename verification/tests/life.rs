#[test]
fn test_life() {
    let x = String::from("x");
    let y = String::from("y");
    longest(&x, &y);
    longest(&x, &y);
}

fn longest<'a>(x: &'a str, y: &'a str) -> &'a str {
    if x.len() > y.len() {
        x
    } else {
        y
    }
}
