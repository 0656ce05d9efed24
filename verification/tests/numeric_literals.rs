use core_engine::filter::is_numeric;

fn parses(s: &str) -> bool {
    s.parse::<f64>().is_ok()
}

#[test]
fn plain_numbers_are_numeric() {
    for s in ["0", "30", "007", "1.5", "1.", ".5", "-2", "+2", "-.5", "+1.", "123456789012345678901234567890"] {
        assert!(is_numeric(s), "{}", s);
        assert!(parses(s), "{}", s);
    }
}

#[test]
fn exponents_are_numeric() {
    for s in ["1e5", "1E5", "1e+5", "1e-5", "1.e5", ".5e5", "-2.5E-10", "+0e0", "1e0005"] {
        assert!(is_numeric(s), "{}", s);
        assert!(parses(s), "{}", s);
    }
}

#[test]
fn special_words_are_numeric() {
    for s in ["inf", "INF", "Inf", "-inf", "+inf", "infinity", "Infinity", "-INFINITY", "nan", "NaN", "-nan", "+NAN"] {
        assert!(is_numeric(s), "{}", s);
        assert!(parses(s), "{}", s);
    }
}

#[test]
fn other_texts_are_not_numeric() {
    for s in [
        "", "+", "-", ".", "+.", "e5", "1e", "1e+", "1e-", ".e5", "1.5.2", "1 ", " 1", "1_000",
        "0x10", "--1", "+-1", "1e5.5", "1e5e5", "in", "infinit", "infinityy", "na", "nann",
        "2024-01-01", "0; DROP TABLE users; --", "Boston", "1f", "١", "1e٣", "ınf", "1,5",
    ] {
        assert!(!is_numeric(s), "{}", s);
        assert!(!parses(s), "{}", s);
    }
}

#[test]
fn agrees_with_the_float_parser_on_short_texts() {
    let alphabet = ['0', '9', '+', '-', '.', 'e', 'E', 'i', 'n', 'f', 'a', ' ', 'x'];
    let mut texts: Vec<String> = vec![String::new()];
    let mut last: Vec<String> = vec![String::new()];
    for _ in 0..4 {
        let mut next: Vec<String> = Vec::new();
        for t in &last {
            for c in alphabet {
                let mut u = t.clone();
                u.push(c);
                next.push(u);
            }
        }
        texts.extend(next.iter().cloned());
        last = next;
    }
    for t in &texts {
        assert_eq!(is_numeric(t), parses(t), "{:?}", t);
    }
}
