use suoi_simp::Face;
use suoi_simp::FaceElement;
use suoi_simp::Tokens;

fn indices(e: &FaceElement) -> (u32, u32, u32) {
    (e.position_index(), e.uv_index(), e.normal_index())
}

#[test]
fn corner_with_three_indices() {
    assert_eq!(indices(&FaceElement::parse("3/4/5")), (3, 4, 5));
}

#[test]
fn corner_without_uv() {
    assert_eq!(indices(&FaceElement::parse("3//5")), (3, 0, 5));
}

#[test]
fn corner_with_position_only() {
    assert_eq!(indices(&FaceElement::parse("3")), (3, 0, 0));
}

#[test]
fn corner_with_two_indices() {
    assert_eq!(indices(&FaceElement::parse("7/8")), (7, 8, 0));
}

#[test]
fn corner_ignores_fields_behind_the_third() {
    assert_eq!(indices(&FaceElement::parse("1/2/3/4")), (1, 2, 3));
}

#[test]
fn corner_of_empty_text_is_absent() {
    assert_eq!(indices(&FaceElement::parse("")), (0, 0, 0));
}

#[test]
fn corner_fields_that_are_no_numbers_count_as_zero() {
    assert_eq!(indices(&FaceElement::parse("a/-1/2.5")), (0, 0, 0));
    assert_eq!(indices(&FaceElement::parse("1/x/3")), (1, 0, 3));
    assert_eq!(indices(&FaceElement::parse(" 1/2/3")), (0, 2, 3));
}

#[test]
fn corner_field_with_plus_sign_is_a_number() {
    assert_eq!(indices(&FaceElement::parse("+12/+0/+")), (12, 0, 0));
}

#[test]
fn corner_field_beyond_32_bits_counts_as_zero() {
    assert_eq!(indices(&FaceElement::parse("4294967295/4294967296/99999999999999999999")), (
        4294967295, 0, 0,
    ));
    assert_eq!(indices(&FaceElement::parse("0004294967295/1/1")), (4294967295, 1, 1));
}

#[test]
fn corner_agrees_with_the_standard_parser() {
    let cases = ["1/2/3", "10//7", "5", "/4/", "//9", "x/1/y", "12/+3/-4", "1/2/3/4/5", "007/08/9"];
    for case in cases {
        let fields: Vec<u32> = case.split('/').map(|t| t.parse::<u32>().unwrap_or(0)).collect();
        let expected = (
            fields.first().copied().unwrap_or(0),
            fields.get(1).copied().unwrap_or(0),
            fields.get(2).copied().unwrap_or(0),
        );
        assert_eq!(indices(&FaceElement::parse(case)), expected, "{}", case);
    }
}

#[test]
fn new_keeps_the_order_position_normal_uv() {
    let e = FaceElement::new(1, 2, 3);
    assert_eq!(e.position_index(), 1);
    assert_eq!(e.normal_index(), 2);
    assert_eq!(e.uv_index(), 3);
}

#[test]
fn face_holds_its_corners_in_order() {
    let face = Face::new(vec![FaceElement::new(1, 1, 1), FaceElement::new(2, 2, 2)]);
    assert_eq!(face.elements().len(), 2);
    assert_eq!(face.elements()[0], FaceElement::new(1, 1, 1));
    assert_eq!(face.elements()[1], FaceElement::new(2, 2, 2));
}

#[test]
fn face_reads_all_remaining_words() {
    let line: Vec<char> = "f 1/1/1  2/2/2\t3//3 4".chars().collect();
    let (cmd, mut tokens) = Tokens::directive(&line);
    assert_eq!(cmd, &['f'][..]);
    let face = Face::parse(&mut tokens);
    let got: Vec<(u32, u32, u32)> = face.elements().iter().map(indices).collect();
    assert_eq!(got, vec![(1, 1, 1), (2, 2, 2), (3, 0, 3), (4, 0, 0)]);
    assert_eq!(tokens.next(), None);
}

#[test]
fn face_without_corners_is_empty() {
    let line: Vec<char> = "f".chars().collect();
    let (_, mut tokens) = Tokens::directive(&line);
    assert_eq!(Face::parse(&mut tokens).elements().len(), 0);
}
