use kcheck::error::KcheckError;
use kcheck::text::{char_is_whitespace, chars_of, decimal_string, find, split_lines};
use kcheck::util::{file_contents_as_string, inflate_gzip_file, option_vector_append};
use std::io::Write;

fn gz_bytes(content: &[u8]) -> Vec<u8> {
    let mut gz = flate2::write::GzEncoder::new(Vec::new(), flate2::Compression::default());
    gz.write_all(content).expect("Expected to compress the content");
    gz.finish().expect("Expected to finish the gzip stream")
}

#[test]
fn option_vector_append_joins() {
    assert_eq!(option_vector_append::<u8>(None, None), None);
    assert_eq!(option_vector_append(Some(vec![1, 2]), None), Some(vec![1, 2]));
    assert_eq!(option_vector_append(None, Some(vec![3])), Some(vec![3]));
    assert_eq!(
        option_vector_append(Some(vec![1, 2]), Some(vec![3, 4])),
        Some(vec![1, 2, 3, 4])
    );
    assert_eq!(
        option_vector_append(Some(Vec::<u8>::new()), Some(Vec::new())),
        Some(Vec::new())
    );
}

#[test]
fn inflate_gives_the_text_that_was_compressed() {
    let text = "CONFIG_TEST=y\nCONFIG_TEST_TWO=n";
    let bytes = gz_bytes(text.as_bytes());
    assert_ne!(bytes, text.as_bytes());
    assert_eq!(inflate_gzip_file(&bytes), Ok(text.to_string()));
    assert_eq!(inflate_gzip_file(&gz_bytes(b"")), Ok(String::new()));
}

#[test]
fn inflate_rejects_what_is_no_gzip() {
    let result = inflate_gzip_file(b"CONFIG_TEST=y");
    match result {
        Err(KcheckError::IoError(message)) => assert!(!message.is_empty()),
        other => panic!("expected an IoError, got {:?}", other),
    }
    assert!(matches!(inflate_gzip_file(b""), Err(KcheckError::IoError(_))));
}

#[test]
fn inflate_rejects_data_that_is_no_text() {
    let bytes = gz_bytes(&[0x43, 0xff, 0xfe]);
    assert!(matches!(
        inflate_gzip_file(&bytes),
        Err(KcheckError::IoError(_))
    ));
}

#[test]
fn file_contents_are_decoded() {
    assert_eq!(
        file_contents_as_string("CONFIG_A=\"\u{e9}\u{4e2d}\"".as_bytes()),
        Ok("CONFIG_A=\"\u{e9}\u{4e2d}\"".to_string())
    );
    assert_eq!(file_contents_as_string(b""), Ok(String::new()));
    assert_eq!(
        file_contents_as_string(&[0x61, 0x80]),
        Err(KcheckError::IoError(
            "stream did not contain valid UTF-8".to_string()
        ))
    );
}

#[test]
fn error_messages() {
    assert_eq!(
        KcheckError::DuplicateConfig("CONFIG_A".to_string()).to_string(),
        "Duplicate config found: CONFIG_A"
    );
    assert_eq!(
        KcheckError::FileDoesNotExist("/a".to_string()).to_string(),
        "File does not exist: /a"
    );
    assert_eq!(
        KcheckError::InvalidFile("/a".to_string()).to_string(),
        "File is not a valid: /a"
    );
    assert_eq!(KcheckError::IoError("x".to_string()).to_string(), "IO Error: x");
    assert_eq!(
        KcheckError::JsonParseError("x".to_string()).to_string(),
        "Error parsing json file: x"
    );
    assert_eq!(
        KcheckError::KernelConfigBuildError("x".to_string()).to_string(),
        "Error building KernelConfig: x"
    );
    assert_eq!(
        KcheckError::KernelConfigNotFound.to_string(),
        "Kernel config not found"
    );
    assert_eq!(
        KcheckError::KernelConfigParseError.to_string(),
        "Kernel config parse error"
    );
    assert_eq!(
        KcheckError::MissingFileExtension.to_string(),
        "No file extension found"
    );
    assert_eq!(KcheckError::NoConfig.to_string(), "Could not find a config file");
    assert_eq!(
        KcheckError::TomlParseError("x".to_string()).to_string(),
        "Error parsing toml file: x"
    );
    assert_eq!(
        KcheckError::UninitializedField("x".to_string()).to_string(),
        "Uninitialized field: x"
    );
    assert_eq!(
        KcheckError::UnknownFileType("x".to_string()).to_string(),
        "Unknown file type: x"
    );
    assert_eq!(
        KcheckError::UnknownKernelConfigOption("x".to_string()).to_string(),
        "Unknown kernel config option: x"
    );
}

#[test]
fn errors_compare_by_kind_and_text() {
    let all = vec![
        KcheckError::DuplicateConfig("x".to_string()),
        KcheckError::FileDoesNotExist("x".to_string()),
        KcheckError::InvalidFile("x".to_string()),
        KcheckError::IoError("x".to_string()),
        KcheckError::JsonParseError("x".to_string()),
        KcheckError::KernelConfigBuildError("x".to_string()),
        KcheckError::KernelConfigNotFound,
        KcheckError::KernelConfigParseError,
        KcheckError::MissingFileExtension,
        KcheckError::NoConfig,
        KcheckError::TomlParseError("x".to_string()),
        KcheckError::UninitializedField("x".to_string()),
        KcheckError::UnknownFileType("x".to_string()),
        KcheckError::UnknownKernelConfigOption("x".to_string()),
    ];
    for (i, a) in all.iter().enumerate() {
        for (j, b) in all.iter().enumerate() {
            assert_eq!(a == b, i == j);
        }
        assert_eq!(a.clone(), *a);
    }
    assert_ne!(
        KcheckError::IoError("x".to_string()),
        KcheckError::IoError("y".to_string())
    );
}

#[test]
fn chars_and_strings_convert() {
    let chars = chars_of("a\u{e9}\u{1F600}z");
    assert_eq!(chars, vec!['a', '\u{e9}', '\u{1F600}', 'z']);
    assert_eq!(chars_of(""), Vec::<char>::new());
    assert_eq!(split_lines("a\u{e9}\u{1F600}z\n\u{4e2d}"), vec!["a\u{e9}\u{1F600}z", "\u{4e2d}"]);
}

#[test]
fn find_gives_the_leftmost_occurrence() {
    let hay = chars_of("abcabcabd");
    assert_eq!(find(&hay, &chars_of("abc")), Some(0));
    assert_eq!(find(&hay, &chars_of("abd")), Some(6));
    assert_eq!(find(&hay, &chars_of("bca")), Some(1));
    assert_eq!(find(&hay, &chars_of("abe")), None);
    assert_eq!(find(&hay, &chars_of("")), Some(0));
    assert_eq!(find(&hay, &chars_of("abcabcabda")), None);
    assert_eq!(find(&chars_of(""), &chars_of("")), Some(0));
    assert_eq!(find(&chars_of(""), &chars_of("a")), None);
    assert_eq!(find(&hay, &hay), Some(0));
}

#[test]
fn white_space_is_unicode_white_space() {
    for code in 0..=0x3100u32 {
        if let Some(c) = char::from_u32(code) {
            assert_eq!(char_is_whitespace(c), c.is_whitespace(), "U+{:04X}", code);
        }
    }
}

#[test]
fn lines_split_as_std_splits_them() {
    for text in [
        "",
        "a",
        "a\n",
        "a\nb",
        "a\r\nb\r\n",
        "\n",
        "\n\n",
        "a\n\nb",
        "a\r",
        "a\r\r\nb",
        "\r\n",
        "a\rb\nc",
        "CONFIG_A=y\n# CONFIG_B is not set\n",
    ] {
        let expected: Vec<String> = text.lines().map(|line| line.to_string()).collect();
        assert_eq!(split_lines(text), expected, "{:?}", text);
    }
    assert_eq!(split_lines("a\r\nb\n\nc"), vec!["a", "b", "", "c"]);
}

#[test]
fn decimal_strings() {
    for n in [0u64, 1, 9, 10, 11, 99, 100, 12345, u64::MAX] {
        assert_eq!(decimal_string(n), format!("{}", n));
    }
}
