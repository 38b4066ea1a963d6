use ram_core::components::main_panel::parse_optional;
use ram_core::i18n::{tr, Language};
use ram_core::text::{parse_u64, str_eq, u64_to_decimal};

#[test]
fn decimal_formatting() {
    assert_eq!(u64_to_decimal(0), "0");
    assert_eq!(u64_to_decimal(7), "7");
    assert_eq!(u64_to_decimal(1_640_579), "1640579");
    assert_eq!(u64_to_decimal(u64::MAX), "18446744073709551615");
}

#[test]
fn decimal_parsing_follows_str_parse() {
    for s in ["0", "42", "+42", "", "+", "-5", "12a", " 1", "007", "18446744073709551615", "18446744073709551616", "99999999999999999999999"] {
        assert_eq!(parse_u64(s), s.parse::<u64>().ok(), "input {s:?}");
    }
}

#[test]
fn decimal_round_trip() {
    for n in [0u64, 9, 10, 1_000_000, u64::MAX] {
        assert_eq!(parse_u64(&u64_to_decimal(n)), Some(n));
    }
}

#[test]
fn string_equality() {
    assert!(str_eq("pt-BR", "pt-BR"));
    assert!(!str_eq("pt-BR", "pt-br"));
}

#[test]
fn parse_optional_trims_unicode_whitespace() {
    assert_eq!(parse_optional("  abc  "), Some("abc".to_string()));
    assert_eq!(parse_optional("\u{3000}a b\u{00A0}\t"), Some("a b".to_string()));
    assert_eq!(parse_optional("   \n"), None);
    assert_eq!(parse_optional(""), None);
}

#[test]
fn english_is_the_key_itself() {
    assert_eq!(tr(Language::En, "Refresh"), "Refresh");
    assert_eq!(tr(Language::En, "not a key"), "not a key");
}

#[test]
fn portuguese_translates_and_falls_back() {
    assert_eq!(tr(Language::PtBr, "Refresh"), "Atualizar");
    assert_eq!(tr(Language::PtBr, "Accounts"), "Contas");
    assert_eq!(tr(Language::PtBr, "Most free slots"), "Mais vagas");
    assert_eq!(tr(Language::PtBr, "Rate limited. Try again in a moment."), "Limite de requisi\u{00E7}\u{00F5}es atingido. Tente novamente em instantes.");
    assert_eq!(tr(Language::PtBr, "Not in the dictionary"), "Not in the dictionary");
}

#[test]
fn duplicate_dictionary_entries_use_the_first() {
    assert_eq!(tr(Language::PtBr, "Move account to trash"), "Mover conta para a lixeira");
    assert_eq!(tr(Language::PtBr, "Moved {} account(s) to trash"), "{n} conta(s) movida(s) para a lixeira");
}

#[test]
fn language_names_round_trip() {
    for lang in [Language::En, Language::PtBr] {
        assert_eq!(Language::from_str(lang.as_str()), lang);
    }
    assert_eq!(Language::from_str("fr"), Language::En);
    assert_eq!(Language::from_str("pt-br"), Language::En);
    assert_eq!(Language::default(), Language::En);
    assert_eq!(Language::PtBr.label(), "Portugu\u{00EA}s (BR)");
    assert_eq!(Language::En.label(), "English");
}
