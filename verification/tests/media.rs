use base64::{engine::general_purpose, Engine as _};
use stream_pad::bmp::{bmp_data_url, bmp_data_url_from_encoded, bmp_file_bytes, file_icon_data_url, IconBitmap};
use stream_pad::sound::{resolve_sound_source, SoundSource};

#[test]
fn bitmap_header_layout() {
    let bytes = bmp_file_bytes(2, 1, &[1, 2, 3, 4, 5, 6, 7, 8]);
    assert_eq!(bytes.len(), 62);
    assert_eq!(&bytes[0..2], b"BM");
    assert_eq!(u32::from_le_bytes(bytes[2..6].try_into().unwrap()), 62);
    assert_eq!(&bytes[6..10], &[0, 0, 0, 0]);
    assert_eq!(u32::from_le_bytes(bytes[10..14].try_into().unwrap()), 54);
    assert_eq!(u32::from_le_bytes(bytes[14..18].try_into().unwrap()), 40);
    assert_eq!(i32::from_le_bytes(bytes[18..22].try_into().unwrap()), 2);
    assert_eq!(i32::from_le_bytes(bytes[22..26].try_into().unwrap()), -1);
    assert_eq!(u16::from_le_bytes(bytes[26..28].try_into().unwrap()), 1);
    assert_eq!(u16::from_le_bytes(bytes[28..30].try_into().unwrap()), 32);
    assert_eq!(u32::from_le_bytes(bytes[30..34].try_into().unwrap()), 0);
    assert_eq!(u32::from_le_bytes(bytes[34..38].try_into().unwrap()), 8);
    assert_eq!(i32::from_le_bytes(bytes[38..42].try_into().unwrap()), 2835);
    assert_eq!(i32::from_le_bytes(bytes[42..46].try_into().unwrap()), 2835);
    assert_eq!(&bytes[46..54], &[0; 8]);
    assert_eq!(&bytes[54..], &[1, 2, 3, 4, 5, 6, 7, 8]);
}

#[test]
fn bitmap_address_is_base64_of_the_file() {
    let pixels = vec![9u8; 16];
    let url = bmp_data_url(2, 2, &pixels);
    let expected = format!("data:image/bmp;base64,{}", general_purpose::STANDARD.encode(bmp_file_bytes(2, 2, &pixels)));
    assert_eq!(url, expected);
    assert!(url.starts_with("data:image/bmp;base64,Qk"));
    assert_eq!(bmp_data_url_from_encoded("QUJD"), "data:image/bmp;base64,QUJD");
}

#[test]
fn icon_address_only_with_an_icon() {
    assert_eq!(file_icon_data_url(None), None);
    let icon = IconBitmap { width: 1, height: 1, pixels: vec![0, 0, 0, 255] };
    assert_eq!(file_icon_data_url(Some(icon)), Some(bmp_data_url(1, 1, &[0, 0, 0, 255])));
}

#[test]
fn sound_files_are_played_from_disk() {
    match resolve_sound_source("C:/Sounds/ding.wav").unwrap() {
        SoundSource::File(p) => assert_eq!(p, "C:/Sounds/ding.wav"),
        other => panic!("{other:?}"),
    }
    match resolve_sound_source("Data:audio,AAAA").unwrap() {
        SoundSource::File(p) => assert_eq!(p, "Data:audio,AAAA"),
        other => panic!("{other:?}"),
    }
}

#[test]
fn inline_sounds_are_decoded() {
    match resolve_sound_source("data:audio/wav;base64,AAEC").unwrap() {
        SoundSource::Encoded(b) => assert_eq!(b, vec![0, 1, 2]),
        other => panic!("{other:?}"),
    }
    match resolve_sound_source("data:audio/mp3;base64,aGk=,ignored").unwrap() {
        SoundSource::Encoded(b) => assert_eq!(b, b"hi".to_vec()),
        other => panic!("{other:?}"),
    }
}

#[test]
fn inline_sound_errors() {
    assert_eq!(resolve_sound_source("data:audio/wav;base64").unwrap_err(), "Invalid audio data URL");
    assert!(resolve_sound_source("data:audio/wav;base64,!!!").is_err());
    assert_eq!(
        resolve_sound_source("data:audio/wav;base64,!!!").unwrap_err(),
        general_purpose::STANDARD.decode("!!!").unwrap_err().to_string()
    );
}

#[test]
fn bitmap_address_decodes_back_to_the_file() {
    let pixels: Vec<u8> = (0u8..20).collect();
    let url = bmp_data_url(5, 1, &pixels);
    let decoded = general_purpose::STANDARD.decode(&url["data:image/bmp;base64,".len()..]).unwrap();
    assert_eq!(decoded, bmp_file_bytes(5, 1, &pixels));
    assert_eq!(decoded.len(), 54 + pixels.len());
    assert_eq!(&decoded[0..2], b"BM");
    assert_eq!(i32::from_le_bytes(decoded[18..22].try_into().unwrap()), 5);
    assert_eq!(i32::from_le_bytes(decoded[22..26].try_into().unwrap()), -1);
    assert_eq!(u16::from_le_bytes(decoded[28..30].try_into().unwrap()), 32);
}

#[test]
fn base64_text_is_the_standard_alphabet_with_padding() {
    let empty = bmp_data_url(0, 0, &[]);
    let body = &empty["data:image/bmp;base64,".len()..];
    assert_eq!(body.len(), 72);
    assert!(body.chars().all(|c| c.is_ascii_alphanumeric() || c == '+' || c == '/' || c == '='));
    assert_eq!(&body[..4], "Qk02");
    let one = bmp_data_url(0, 0, &[255]);
    assert!(one.ends_with("/w=="));
}
