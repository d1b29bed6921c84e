use plumbrowser::encoding::{
    base64_encode, html_escape, percent_decode_bytes, percent_decode_component,
    percent_encode_ipc_path, percent_encode_query,
};

#[test]
fn queries_are_encoded() {
    assert_eq!(percent_encode_query("a b"), "a+b");
    assert_eq!(percent_encode_query("Az09-_.~"), "Az09-_.~");
    assert_eq!(percent_encode_query("a+b&c=d/ж"), "a%2Bb%26c%3Dd%2F%D0%B6");
    assert_eq!(percent_encode_query(""), "");
}

#[test]
fn paths_are_encoded() {
    assert_eq!(percent_encode_ipc_path("load:a b"), "load%3Aa%20b");
    assert_eq!(percent_encode_ipc_path("\u{0}\u{7f}ё"), "%00%7F%D1%91");
}

#[test]
fn encoded_paths_are_ascii_and_decode_to_the_text() {
    for s in ["", "%", "100%", "%41", "a b\tc", "Новая вкладка", "\u{1F600}", "%+5", "+"] {
        let e = percent_encode_ipc_path(s);
        assert!(e.is_ascii());
        assert_eq!(percent_decode_component(&e), s);
        let q = percent_encode_query(s);
        assert!(q.is_ascii());
        assert!(!q.chars().any(char::is_whitespace));
    }
}

#[test]
fn triplets_are_decoded() {
    assert_eq!(percent_decode_component("%41%6a%6A"), "Ajj");
    assert_eq!(percent_decode_component("a+b"), "a+b");
    assert_eq!(percent_decode_component("%D0%B6"), "ж");
}

#[test]
fn what_is_no_triplet_stays() {
    assert_eq!(percent_decode_component("%"), "%");
    assert_eq!(percent_decode_component("%4"), "%4");
    assert_eq!(percent_decode_component("%zz"), "%zz");
    assert_eq!(percent_decode_component("%4g%41"), "%4gA");
    assert_eq!(percent_decode_component("%%41"), "%A");
    assert_eq!(percent_decode_component("%-1"), "%-1");
    assert_eq!(percent_decode_component("%ж"), "%ж");
}

#[test]
fn a_sign_may_stand_for_the_first_digit() {
    assert_eq!(percent_decode_bytes("%+5"), vec![5u8]);
    assert_eq!(percent_decode_bytes("%++"), b"%++".to_vec());
}

#[test]
fn bytes_that_are_no_text_are_replaced() {
    assert_eq!(percent_decode_bytes("a%FFb"), vec![0x61u8, 0xFF, 0x62]);
    assert_eq!(percent_decode_component("a%FFb"), "a\u{FFFD}b");
    assert_eq!(percent_decode_component("%F0%9F%98"), "\u{FFFD}");
}

#[test]
fn markup_is_escaped() {
    assert_eq!(
        html_escape("<a href=\"x\">&amp;</a>'"),
        "&lt;a href=&quot;x&quot;&gt;&amp;amp;&lt;/a&gt;'"
    );
    assert_eq!(html_escape(""), "");
    let s = "a<b>&\"c\"&lt;";
    let e = html_escape(s);
    assert!(!e.contains('<') && !e.contains('>') && !e.contains('"'));
    let back = e
        .replace("&quot;", "\"")
        .replace("&gt;", ">")
        .replace("&lt;", "<")
        .replace("&amp;", "&");
    assert_eq!(back, s);
}

#[test]
fn bytes_are_written_in_base64() {
    assert_eq!(base64_encode(b""), "");
    assert_eq!(base64_encode(b"f"), "Zg==");
    assert_eq!(base64_encode(b"fo"), "Zm8=");
    assert_eq!(base64_encode(b"foo"), "Zm9v");
    assert_eq!(base64_encode(b"foob"), "Zm9vYg==");
    assert_eq!(base64_encode(b"fooba"), "Zm9vYmE=");
    assert_eq!(base64_encode(b"foobar"), "Zm9vYmFy");
    assert_eq!(base64_encode(&[0xFB, 0xEF, 0xBE, 0xFF, 0xFF, 0xFF]), "++++////");
    assert_eq!(base64_encode(&[0, 0, 0]), "AAAA");
}

#[test]
fn base64_can_be_read_back() {
    let table = "ABCDEFGHIJKLMNOPQRSTUVWXYZabcdefghijklmnopqrstuvwxyz0123456789+/";
    for len in 0usize..40 {
        let bytes: Vec<u8> = (0..len).map(|i| (i * 73 + len * 31) as u8).collect();
        let text = base64_encode(&bytes);
        assert_eq!(text.len(), (len + 2) / 3 * 4);
        let mut back: Vec<u8> = Vec::new();
        for group in text.as_bytes().chunks(4) {
            let mut n: u32 = 0;
            let mut kept = 3;
            for &c in group {
                n <<= 6;
                if c == b'=' {
                    kept -= 1;
                } else {
                    n |= table.find(c as char).unwrap() as u32;
                }
            }
            back.extend_from_slice(&n.to_be_bytes()[1..1 + kept]);
        }
        assert_eq!(back, bytes);
    }
}

#[test]
fn the_encodings_differ_in_spaces_only() {
    for s in ["", " ", "a b", "a+b c%20", "Новая вкладка +"] {
        let q = percent_encode_query(s);
        assert_eq!(q.replace('+', "%20"), percent_encode_ipc_path(s));
        assert_eq!(q.contains('+'), s.contains(' '));
        assert_eq!(percent_decode_component(&q.replace('+', " ")), s);
    }
}
