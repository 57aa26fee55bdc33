use arcus_client::hints::{arcus_hints, CMDHint, CMDHinter, MyHelper};

#[test]
fn hint_new_keeps_text_and_prefix_length() {
    let h = CMDHint::new("get <key>", "get ");
    assert_eq!(h.display, "get <key>");
    assert_eq!(h.complete_up_to, 4);
}

#[test]
fn suffix_strips_leading_bytes() {
    let h = CMDHint::new("lop create <key>", "lop create ");
    let s = h.suffix(4);
    assert_eq!(s.display, "create <key>");
    assert_eq!(s.complete_up_to, 7);
    let s = h.suffix(12);
    assert_eq!(s.display, "key>");
    assert_eq!(s.complete_up_to, 0);
}

#[test]
fn hinter_offers_rest_of_first_matching_hint() {
    let hinter = CMDHinter { hints: vec![CMDHint::new("get <key>", "get "), CMDHint::new("gets <key>", "gets ")] };
    let h = hinter.hint("ge", 2).unwrap();
    assert_eq!(h.display, "t <key>");
    assert_eq!(h.complete_up_to, 2);
    let h = hinter.hint("gets", 4).unwrap();
    assert_eq!(h.display, " <key>");
    assert!(hinter.hint("delete", 6).is_none());
    assert!(hinter.hint("", 0).is_none());
    assert!(hinter.hint("get", 1).is_none());
}

#[test]
fn command_table_has_every_command() {
    let hints = arcus_hints();
    assert_eq!(hints.len(), 41);
    for h in &hints {
        assert!(h.complete_up_to > 0 && h.complete_up_to <= h.display.len());
    }
    for (i, a) in hints.iter().enumerate() {
        for b in &hints[i + 1..] {
            assert_ne!(a.display, b.display);
        }
    }
    assert!(hints.iter().any(|h| h.display == "bop pwg <key> <bkey> <order> [<count>]\n* <order> = asc | desc"));
}

#[test]
fn helper_offers_bop_hint() {
    let helper = MyHelper::new();
    let h = helper.hinter.hint("bop smg", 7).unwrap();
    assert!(h.display.starts_with("et <lenkeys>"));
    assert_eq!(h.complete_up_to, 3);
}

#[test]
fn command_table_entries_are_exact() {
    let hints = arcus_hints();
    let get = CMDHint::new("get <key>", "get ");
    assert_eq!(hints[0], get);
    assert_eq!(hints[0].complete_up_to, 4);
    let pwg = hints.last().unwrap();
    assert_eq!(pwg.display, "bop pwg <key> <bkey> <order> [<count>]\n* <order> = asc | desc");
    assert_eq!(pwg.complete_up_to, 8);
}

#[test]
fn completions_are_leading_words() {
    let hints = arcus_hints();
    let mut seen: Vec<&str> = Vec::new();
    for h in &hints {
        let c = &h.display[..h.complete_up_to];
        assert!(c.ends_with(' '));
        assert!(!c.contains('<'));
        assert!(!seen.contains(&c));
        seen.push(c);
    }
}

#[test]
fn helper_holds_the_command_table() {
    assert_eq!(MyHelper::new().hinter.hints, arcus_hints());
}
