use urlfinder::utils::{is_status_match, parse_status_codes};

#[test]
fn all_keyword_means_unfiltered() {
    assert_eq!(parse_status_codes("all"), Vec::<u16>::new());
    assert_eq!(parse_status_codes("ALL"), Vec::<u16>::new());
    assert_eq!(parse_status_codes("All"), Vec::<u16>::new());
    assert!(is_status_match(200, &vec![]));
    assert!(is_status_match(404, &vec![]));
    assert!(is_status_match(0, &vec![]));
}

#[test]
fn listed_codes_constrain() {
    let codes = parse_status_codes("200,301");
    assert_eq!(codes, vec![200, 301]);
    assert!(!is_status_match(404, &codes));
    assert!(is_status_match(200, &codes));
    assert!(is_status_match(301, &codes));
}

#[test]
fn pieces_are_trimmed_and_bad_ones_dropped() {
    assert_eq!(parse_status_codes(" 200 , 301 ,abc, 50x"), vec![200, 301]);
    assert_eq!(parse_status_codes("200,,404"), vec![200, 404]);
    assert_eq!(parse_status_codes(""), Vec::<u16>::new());
    assert_eq!(parse_status_codes("99999"), Vec::<u16>::new());
    assert_eq!(parse_status_codes("+200"), vec![200]);
    assert_eq!(parse_status_codes("0000404"), vec![404]);
}

#[test]
fn allx_is_not_the_keyword() {
    assert_eq!(parse_status_codes("alle"), Vec::<u16>::new());
    assert_eq!(parse_status_codes("200,all,301"), vec![200, 301]);
}
