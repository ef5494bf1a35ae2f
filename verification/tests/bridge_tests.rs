use teleflow::bridge::{ConsoleBridge, base64_decode, extract_frame, BRIDGE_PREFIX};

fn base64_encode(input: &[u8]) -> String {
    const ALPHABET: &[u8] = b"ABCDEFGHIJKLMNOPQRSTUVWXYZabcdefghijklmnopqrstuvwxyz0123456789+/";
    let mut output = String::new();

    for chunk in input.chunks(3) {
        let mut buffer = 0u32;
        for (i, &byte) in chunk.iter().enumerate() {
            buffer |= (byte as u32) << (16 - i * 8);
        }

        let chars = match chunk.len() {
            3 => 4,
            2 => 3,
            1 => 2,
            _ => 0,
        };

        for i in 0..chars {
            let idx = ((buffer >> (18 - i * 6)) & 0x3F) as usize;
            output.push(ALPHABET[idx] as char);
        }

        for _ in chars..4 {
            output.push('=');
        }
    }

    output
}

#[test]
fn test_base64_roundtrip() {
    let original = b"Hello, World!";
    let encoded = base64_encode(original);
    let decoded = base64_decode(&encoded).unwrap();
    assert_eq!(original.to_vec(), decoded);
}

#[test]
fn base64_decodes_known_values() {
    assert_eq!(base64_decode("TWFu").unwrap(), b"Man".to_vec());
    assert_eq!(base64_decode("TWE=").unwrap(), b"Ma".to_vec());
    assert_eq!(base64_decode("TQ==").unwrap(), b"M".to_vec());
    assert_eq!(base64_decode("").unwrap(), Vec::<u8>::new());
}

#[test]
fn base64_rejects_bytes_outside_the_alphabet() {
    let err = base64_decode("TW!u").unwrap_err();
    assert_eq!(err, "invalid base64 character");
}

#[test]
fn frames_need_the_prefix() {
    assert!(extract_frame("console noise").is_none());
    assert!(extract_frame("").is_none());

    let payload = b"\x93\x01\x02\x03";
    let framed = format!("{}{}", BRIDGE_PREFIX, base64_encode(payload));
    let extracted = extract_frame(&framed).unwrap();
    assert_eq!(extracted, payload.to_vec());
}

#[test]
fn malformed_frame_bodies_are_dropped() {
    let framed = format!("{}{}", BRIDGE_PREFIX, "no spaces allowed");
    assert!(extract_frame(&framed).is_none());
}

#[test]
fn bridge_counts_frames_and_tracks_heartbeats() {
    let mut bridge = ConsoleBridge::new();
    assert_eq!(bridge.message_count(), 0);
    assert!(!bridge.is_alive(10_000, 5));

    bridge.note_frame(false, 0);
    bridge.note_frame(true, 9_000);
    assert_eq!(bridge.message_count(), 2);

    // 1 second old, well within a 5 second window.
    assert!(bridge.is_alive(10_000, 5));
    // 6 seconds old, outside the window.
    assert!(!bridge.is_alive(15_000, 5));
}

#[test]
fn injection_script_emits_bridge_frames() {
    let script = ConsoleBridge::generate_injection_script();
    assert!(script.contains(BRIDGE_PREFIX));
    assert!(script.contains("console.debug"));
}
