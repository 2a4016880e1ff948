use gpu_plugin::text::{
    chars_of, is_whitespace, lines_chars, push_decimal, replace_job_marker_chars, split_chars,
    split_whitespace_chars, str_is_blank, string_from, trim_chars, trim_end_matches_char,
    trim_start_matches_char,
};

const SAMPLES: &[&str] = &[
    "",
    " ",
    "a",
    "a|b||c|",
    "|",
    "  lead and trail \t",
    "\u{00A0}nbsp\u{3000}",
    "x\ny\r\nz",
    "x\ny\r\nz\n",
    "\n",
    "\n\n",
    "\r",
    "abc\r",
    "a\r\r\n",
    "job 12 job  34",
    "%j%%jj%",
    "héllo wörld",
];

fn strings(v: Vec<Vec<char>>) -> Vec<String> {
    v.iter().map(string_from).collect()
}

#[test]
fn whitespace_matches_std() {
    for u in 0..=0x10FFFFu32 {
        if let Some(c) = char::from_u32(u) {
            assert_eq!(is_whitespace(c), c.is_whitespace(), "U+{u:04X}");
        }
    }
}

#[test]
fn trim_matches_std() {
    for s in SAMPLES {
        assert_eq!(string_from(&trim_chars(&chars_of(s))), s.trim(), "{s:?}");
        assert_eq!(str_is_blank(s), s.trim().is_empty(), "{s:?}");
        assert_eq!(
            string_from(&trim_end_matches_char(&chars_of(s), 'c')),
            s.trim_end_matches('c')
        );
        assert_eq!(
            string_from(&trim_start_matches_char(&chars_of(s), 'a')),
            s.trim_start_matches('a')
        );
    }
}

#[test]
fn split_matches_std() {
    for s in SAMPLES {
        let expected: Vec<String> = s.split('|').map(str::to_string).collect();
        assert_eq!(strings(split_chars(&chars_of(s), '|')), expected, "{s:?}");
        let expected: Vec<String> = s.split_whitespace().map(str::to_string).collect();
        assert_eq!(strings(split_whitespace_chars(&chars_of(s))), expected, "{s:?}");
        let expected: Vec<String> = s.lines().map(str::to_string).collect();
        assert_eq!(strings(lines_chars(&chars_of(s))), expected, "{s:?}");
    }
}

#[test]
fn job_marker_replacement_matches_std() {
    for s in SAMPLES {
        let got = replace_job_marker_chars(&chars_of(s), &chars_of("77"));
        assert_eq!(string_from(&got), s.replace("%j", "77"), "{s:?}");
    }
}

#[test]
fn decimal_matches_format() {
    for n in [0u32, 7, 10, 99, 100, 4096, 1_000_000, u32::MAX] {
        let mut out = Vec::new();
        push_decimal(&mut out, n);
        assert_eq!(string_from(&out), n.to_string());
    }
}
