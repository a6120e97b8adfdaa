use message_relay::integrity::{digest_properties, frame_parts};
use message_relay::payload::{
    duplicate_properties, ComponentKind, ComponentRow, MessageComponent, MessageEmbed,
    MessagePayload, Property, SelectOption,
};
use message_relay::template::MessageVariables;

fn payload(content: &str) -> MessagePayload {
    MessagePayload {
        content: content.to_string(),
        embeds: vec![],
        components: vec![],
        attachments: vec![],
    }
}

fn embed(title: &str, description: &str) -> MessageEmbed {
    MessageEmbed {
        title: title.to_string(),
        description: description.to_string(),
        properties: vec![],
    }
}

fn property(name: &str, value: &str) -> Property {
    Property { name: name.to_string(), value: value.to_string() }
}

fn button(label: &str, custom_id: &str) -> MessageComponent {
    MessageComponent {
        kind: ComponentKind::Button,
        label: label.to_string(),
        custom_id: custom_id.to_string(),
        options: vec![],
        properties: vec![],
    }
}

fn menu(custom_id: &str, options: &[(&str, &str)]) -> MessageComponent {
    MessageComponent {
        kind: ComponentKind::SelectMenu,
        label: String::new(),
        custom_id: custom_id.to_string(),
        options: options
            .iter()
            .map(|(label, value)| SelectOption {
                label: label.to_string(),
                value: value.to_string(),
                properties: vec![],
            })
            .collect(),
        properties: vec![],
    }
}

#[test]
fn frame_of_nothing_is_empty() {
    assert_eq!(frame_parts(&vec![]), "");
}

#[test]
fn frame_announces_each_length() {
    let parts = vec!["ab".to_string(), "".to_string(), "xyz".to_string()];
    assert_eq!(
        frame_parts(&parts),
        "00000000000000000002ab0000000000000000000000000000000000000003xyz"
    );
}

#[test]
fn frame_counts_characters_not_bytes() {
    assert_eq!(frame_parts(&vec!["ü€".to_string()]), "00000000000000000002ü€");
}

#[test]
fn digest_of_plain_content() {
    assert_eq!(
        payload("hi").integrity_hash(),
        "00000000000000000002hi0000000000000000000000000000000000000000"
    );
}

#[test]
fn digest_of_embed_and_component() {
    let mut p = payload("hi");
    p.embeds.push(embed("T", "D"));
    p.components.push(ComponentRow { components: vec![button("L", "2:5")] });
    let embed_digest = "00000000000000000001T00000000000000000001D00000000000000000000";
    let embeds = format!("{:020}{}", embed_digest.len(), embed_digest);
    let component = "00000000000000000001b00000000000000000001L000000000000000000032:5\
                     0000000000000000000000000000000000000000";
    let row = format!("{:020}{}", component.len(), component);
    let rows = format!("{:020}{}", row.len(), row);
    let expected = format!(
        "00000000000000000002hi{:020}{}{:020}{}",
        embeds.len(),
        embeds,
        rows.len(),
        rows
    );
    assert_eq!(p.integrity_hash(), expected);
    assert_eq!(p.embeds[0].digest(), embed_digest);
    assert_eq!(p.components[0].components[0].digest(), component);
    assert_eq!(p.components[0].digest(), row);
}

#[test]
fn digest_is_deterministic() {
    let mut p = payload("same");
    p.embeds.push(embed("a", "b"));
    let q = p.clone();
    assert_eq!(p.integrity_hash(), p.integrity_hash());
    assert_eq!(p.integrity_hash(), q.integrity_hash());
}

#[test]
fn digest_detects_changed_content() {
    assert_ne!(payload("hello").integrity_hash(), payload("hellp").integrity_hash());
    assert_ne!(payload("").integrity_hash(), payload(" ").integrity_hash());
}

#[test]
fn digest_detects_changed_embeds() {
    let mut p = payload("x");
    p.embeds.push(embed("ab", "c"));
    let mut q = payload("x");
    q.embeds.push(embed("a", "bc"));
    assert_ne!(p.integrity_hash(), q.integrity_hash());
    let mut r = payload("x");
    r.embeds.push(embed("ab", "c"));
    r.embeds.push(embed("", ""));
    assert_ne!(p.integrity_hash(), r.integrity_hash());
}

#[test]
fn digest_detects_changed_components() {
    let mut p = payload("x");
    p.components.push(ComponentRow { components: vec![button("a", "1"), button("b", "2")] });
    let mut q = payload("x");
    q.components.push(ComponentRow { components: vec![button("a", "1")] });
    q.components.push(ComponentRow { components: vec![button("b", "2")] });
    assert_ne!(p.integrity_hash(), q.integrity_hash());
    let mut r = payload("x");
    r.components.push(ComponentRow { components: vec![button("a", "1"), button("b", "3")] });
    assert_ne!(p.integrity_hash(), r.integrity_hash());
}

#[test]
fn digest_of_select_menu_covers_its_options() {
    let option = "00000000000000000001A000000000000000000032:500000000000000000000";
    let options = format!("{:020}{}", option.len(), option);
    let expected = format!(
        "00000000000000000001s0000000000000000000000000000000000000001m{:020}{}{:020}",
        options.len(),
        options,
        0
    );
    assert_eq!(menu("m", &[("A", "2:5")]).digest(), expected);
    assert_eq!(menu("m", &[("A", "2:5")]).options[0].digest(), option);
}

#[test]
fn digest_detects_changed_kind_and_options() {
    let with = |c: MessageComponent| {
        let mut p = payload("x");
        p.components.push(ComponentRow { components: vec![c] });
        p.integrity_hash()
    };
    let mut as_menu = button("a", "1");
    as_menu.kind = ComponentKind::SelectMenu;
    let mut as_other = button("a", "1");
    as_other.kind = ComponentKind::Other;
    assert_ne!(with(button("a", "1")), with(as_menu.clone()));
    assert_ne!(with(button("a", "1")), with(as_other.clone()));
    assert_ne!(with(as_menu), with(as_other));
    assert_ne!(with(menu("m", &[("A", "2:5")])), with(menu("m", &[("A", "2:6")])));
    assert_ne!(with(menu("m", &[("A", "2:5")])), with(menu("m", &[("B", "2:5")])));
    assert_ne!(with(menu("m", &[("A", "2:5")])), with(menu("m", &[("A", "2:5"), ("", "")])));
    assert_ne!(with(menu("m", &[("AB", "C")])), with(menu("m", &[("A", "BC")])));
    assert_eq!(with(menu("m", &[("A", "2:5")])), with(menu("m", &[("A", "2:5")])));
}

#[test]
fn digest_of_properties_frames_each_pair() {
    assert_eq!(digest_properties(&vec![]), "");
    let pair = "00000000000000000005color0000000000000000000816711680";
    assert_eq!(
        digest_properties(&vec![property("color", "16711680")]),
        format!("{:020}{}", pair.len(), pair)
    );
    let mut e = embed("T", "D");
    e.properties.push(property("color", "16711680"));
    let properties = format!("{:020}{}", pair.len(), pair);
    assert_eq!(
        e.digest(),
        format!(
            "00000000000000000001T00000000000000000001D{:020}{}",
            properties.len(),
            properties
        )
    );
}

#[test]
fn digest_detects_changed_properties() {
    let with_embed = |properties: Vec<Property>| {
        let mut p = payload("x");
        let mut e = embed("a", "b");
        e.properties = properties;
        p.embeds.push(e);
        p.integrity_hash()
    };
    let with_button = |properties: Vec<Property>| {
        let mut p = payload("x");
        let mut b = button("a", "1");
        b.properties = properties;
        p.components.push(ComponentRow { components: vec![b] });
        p.integrity_hash()
    };
    let with_option = |properties: Vec<Property>| {
        let mut p = payload("x");
        let mut m = menu("m", &[("A", "2:5")]);
        m.options[0].properties = properties;
        p.components.push(ComponentRow { components: vec![m] });
        p.integrity_hash()
    };
    for digest in [&with_embed as &dyn Fn(Vec<Property>) -> String, &with_button, &with_option] {
        let base = digest(vec![property("color", "1")]);
        assert_eq!(base, digest(vec![property("color", "1")]));
        assert_ne!(base, digest(vec![]));
        assert_ne!(base, digest(vec![property("color", "2")]));
        assert_ne!(base, digest(vec![property("colour", "1")]));
        assert_ne!(base, digest(vec![property("color", "1"), property("", "")]));
        assert_ne!(base, digest(vec![property("colo", "r1")]));
        assert_ne!(
            digest(vec![property("a", "1"), property("b", "2")]),
            digest(vec![property("b", "2"), property("a", "1")])
        );
    }
}

#[test]
fn digest_tells_embeds_from_components() {
    let mut p = payload("");
    p.embeds.push(embed("a", "b"));
    let mut q = payload("");
    q.components.push(ComponentRow { components: vec![button("a", "b")] });
    assert_ne!(p.integrity_hash(), q.integrity_hash());
}

#[test]
fn digest_ignores_attachments() {
    let p = payload("x");
    let mut q = payload("x");
    q.attachments.push("file.png".to_string());
    assert_eq!(p.integrity_hash(), q.integrity_hash());
}

#[test]
fn strip_components_removes_every_row() {
    let mut p = payload("x");
    p.embeds.push(embed("a", "b"));
    p.components.push(ComponentRow { components: vec![button("a", "b")] });
    p.attachments.push("f".to_string());
    p.strip_components();
    assert_eq!(p.components, vec![]);
    assert_eq!(p.content, "x");
    assert_eq!(p.embeds, vec![embed("a", "b")]);
    assert_eq!(p.attachments, vec!["f".to_string()]);
}

#[test]
fn payload_expansion_rewrites_content_and_embeds_only() {
    let mut vars = MessageVariables::new();
    vars.insert("user", "Alice");
    let mut p = payload("Hi <user>");
    p.embeds.push(embed("<user>'s", "for <user>"));
    p.components.push(ComponentRow { components: vec![button("<user>", "<user>")] });
    p.attachments.push("<user>.png".to_string());
    p.replace_variables(&vars);
    assert_eq!(p.content, "Hi Alice");
    assert_eq!(p.embeds, vec![embed("Alice's", "for Alice")]);

    let mut q = payload("");
    let mut e = embed("", "");
    e.properties = vec![property("footer.text", "by <user>"), property("<user>", "<nobody>")];
    q.embeds.push(e);
    q.replace_variables(&vars);
    assert_eq!(
        q.embeds[0].properties,
        vec![property("footer.text", "by Alice"), property("<user>", "<nobody>")]
    );
    assert_eq!(p.components, vec![ComponentRow { components: vec![button("<user>", "<user>")] }]);
    assert_eq!(p.attachments, vec!["<user>.png".to_string()]);
}

#[test]
fn copies_hold_the_same() {
    let e = embed("a", "b");
    assert_eq!(e.duplicate(), e);
    let row = ComponentRow { components: vec![button("a", "1"), button("b", "2")] };
    assert_eq!(row.duplicate(), row);
    assert_eq!(row.components[0].duplicate(), row.components[0]);
    let select = menu("m", &[("A", "1"), ("B", "2")]);
    assert_eq!(select.duplicate(), select);
    assert_eq!(select.options[1].duplicate(), select.options[1]);
    let properties = vec![property("a", "1"), property("b", "2")];
    assert_eq!(duplicate_properties(&properties), properties);
    let mut rich = embed("a", "b");
    rich.properties = properties;
    assert_eq!(rich.duplicate(), rich);
}
