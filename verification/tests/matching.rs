use compute_shader::api::cl::matching::{longest_common_substring, select_device, strip_terminator};

#[test]
fn common_substring_of_renderer_and_device() {
    let renderer = b"NVIDIA GeForce GTX 1080/PCIe/SSE2";
    assert_eq!(longest_common_substring(renderer, b"NVIDIA GeForce GTX 1080"), 23);
    assert_eq!(longest_common_substring(renderer, b"Intel(R) HD Graphics"), 2);
}

#[test]
fn selection_picks_the_device_that_renders() {
    let names = vec![b"Intel(R) HD Graphics".to_vec(), b"NVIDIA GeForce GTX 1080".to_vec()];
    let renderer = b"NVIDIA GeForce GTX 1080/PCIe/SSE2";
    assert_eq!(select_device(&names, renderer), Some(1));
}

#[test]
fn selection_keeps_the_first_of_equal_scores() {
    let names = vec![b"abc".to_vec(), b"xbcx".to_vec(), b"bc".to_vec()];
    assert_eq!(select_device(&names, b"zzbczz"), Some(0));
    let names = vec![b"q".to_vec(), b"w".to_vec()];
    assert_eq!(select_device(&names, b"renderer"), Some(0));
}

#[test]
fn selection_prefers_a_later_device_only_for_a_longer_match() {
    let names = vec![b"ab".to_vec(), b"abc".to_vec(), b"abcd".to_vec(), b"abc".to_vec()];
    assert_eq!(select_device(&names, b"--abcd--"), Some(2));
}

#[test]
fn selection_of_no_device_is_nothing() {
    let names: Vec<Vec<u8>> = Vec::new();
    assert_eq!(select_device(&names, b"renderer"), None);
}

#[test]
fn common_substring_is_symmetric() {
    let pairs: [(&[u8], &[u8]); 5] = [
        (b"", b""),
        (b"", b"abc"),
        (b"abcdef", b"zcdez"),
        (b"aaaa", b"aa"),
        (b"GeForce", b"NVIDIA GeForce GTX"),
    ];
    for (a, b) in pairs {
        assert_eq!(longest_common_substring(a, b), longest_common_substring(b, a));
    }
}

#[test]
fn common_substring_with_itself_is_the_whole() {
    let samples: [&[u8]; 4] = [b"", b"a", b"abcabc", b"NVIDIA GeForce GTX 1080"];
    for a in samples {
        assert_eq!(longest_common_substring(a, a), a.len());
    }
}

#[test]
fn common_substring_exact_values() {
    assert_eq!(longest_common_substring(b"", b""), 0);
    assert_eq!(longest_common_substring(b"abc", b""), 0);
    assert_eq!(longest_common_substring(b"abc", b"xyz"), 0);
    assert_eq!(longest_common_substring(b"abcdef", b"zcdez"), 3);
    assert_eq!(longest_common_substring(b"xabxabcx", b"abc"), 3);
    assert_eq!(longest_common_substring(b"abab", b"baba"), 3);
    assert_eq!(longest_common_substring(b"ABC", b"abc"), 0);
    assert_eq!(longest_common_substring(b"a-b-c", b"abc"), 1);
}

#[test]
fn terminator_is_stripped() {
    assert_eq!(strip_terminator(b"GPU\0"), b"GPU");
    assert_eq!(strip_terminator(b"GPU"), b"GP");
    assert_eq!(strip_terminator(b""), b"");
}
