use message_relay::attachments::{
    assemble_attachments, decode_attachments, sanitize_filename, Attachment, MessageSendAttachment,
};

fn wire(name: &str, description: Option<&str>, data_url: &str) -> MessageSendAttachment {
    MessageSendAttachment {
        name: name.to_string(),
        description: description.map(|d| d.to_string()),
        data_url: data_url.to_string(),
    }
}

#[test]
fn filename_keeps_letters_digits_dot_dash_underscore() {
    assert_eq!(sanitize_filename("my file (1).png"), "myfile1.png");
    assert_eq!(sanitize_filename("a-b_c.D9"), "a-b_c.D9");
    assert_eq!(sanitize_filename("../../etc/passwd"), "....etcpasswd");
    assert_eq!(sanitize_filename("üñí€"), "");
    assert_eq!(sanitize_filename(""), "");
}

#[test]
fn plain_data_url_is_decoded() {
    let got = decode_attachments(&vec![wire("hello.txt", Some("greeting"), "data:,Hello%20World!")]);
    assert_eq!(
        got,
        vec![Attachment {
            filename: "hello.txt".to_string(),
            description: Some("greeting".to_string()),
            file: b"Hello World!".to_vec(),
            id: 0,
        }]
    );
}

#[test]
fn base64_data_url_is_decoded() {
    let got = decode_attachments(&vec![wire("a.bin", None, "data:application/octet-stream;base64,AAEC/w==")]);
    assert_eq!(got.len(), 1);
    assert_eq!(got[0].file, vec![0u8, 1, 2, 255]);
    assert_eq!(got[0].description, None);
}

#[test]
fn undecodable_attachments_are_dropped_and_ids_keep_positions() {
    let got = decode_attachments(&vec![
        wire("first", None, "data:,one"),
        wire("second", None, "https://example.com/file"),
        wire("third", None, "data:text/plain;base64,!!!!"),
        wire("fourth file", None, "data:,four"),
        wire("fifth", None, "data:no-comma"),
    ]);
    assert_eq!(got.len(), 2);
    assert_eq!(got[0].id, 0);
    assert_eq!(got[0].filename, "first");
    assert_eq!(got[0].file, b"one".to_vec());
    assert_eq!(got[1].id, 3);
    assert_eq!(got[1].filename, "fourthfile");
    assert_eq!(got[1].file, b"four".to_vec());
}

#[test]
fn no_attachments_give_none() {
    assert_eq!(decode_attachments(&vec![]), vec![]);
}

#[test]
fn assembly_follows_the_given_bodies() {
    let wires = vec![wire("a b", Some("d"), "ignored"), wire("c", None, "ignored"), wire("e!", None, "x")];
    let bodies = vec![Some(vec![1u8]), None, Some(vec![])];
    let got = assemble_attachments(&wires, &bodies);
    assert_eq!(
        got,
        vec![
            Attachment { filename: "ab".to_string(), description: Some("d".to_string()), file: vec![1], id: 0 },
            Attachment { filename: "e".to_string(), description: None, file: vec![], id: 2 },
        ]
    );
}
