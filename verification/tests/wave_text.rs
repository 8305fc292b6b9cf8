use yar::wave::ENCODE_LIMIT;
use yar::{Error, Wave};

#[test]
fn a_wave_is_decoded_from_text() {
    let wave = Wave::decode("AAECAwT/").unwrap();
    assert_eq!(wave.points, vec![0, 1, 2, 3, 4, 255]);
    assert_eq!(wave.length, 6);
    let padded = Wave::decode("aGk=").unwrap();
    assert_eq!(padded.points, vec![104, 105]);
    assert_eq!(padded.length, 2);
}

#[test]
fn an_empty_text_is_an_empty_wave() {
    let wave = Wave::decode("").unwrap();
    assert_eq!(wave.points, Vec::<u8>::new());
    assert_eq!(wave.length, 0);
}

#[test]
fn text_that_does_not_decode_is_invalid() {
    assert_eq!(Wave::decode("not base64!").err(), Some(Error::InvalidData));
    assert_eq!(Wave::decode("A").err(), Some(Error::InvalidData));
    assert_eq!(Wave::decode("aGk=aGk=").err(), Some(Error::InvalidData));
}

#[test]
fn a_wave_is_encoded_as_text() {
    let wave = Wave { length: 6, points: vec![0, 1, 2, 3, 4, 255] };
    assert_eq!(wave.encode(), Ok(String::from("AAECAwT/")));
    let short = Wave { length: 100, points: vec![104, 105] };
    assert_eq!(short.encode(), Ok(String::from("aGk=")));
    let empty = Wave { length: 0, points: vec![] };
    assert_eq!(empty.encode(), Ok(String::new()));
}

#[test]
fn encoding_and_decoding_agree() {
    let points: Vec<u8> = (0..=255).collect();
    let wave = Wave::from_points(points.clone()).unwrap();
    assert_eq!(wave.length, 256);
    let text = wave.encode().unwrap();
    assert_eq!(Wave::decode(&text).unwrap().points, points);
}

#[test]
fn the_length_of_a_wave_is_the_number_of_its_points() {
    let wave = Wave::from_points(vec![5, 6, 7]).unwrap();
    assert_eq!(wave.length, 3);
    assert_eq!(wave.points, vec![5, 6, 7]);
    assert_eq!(ENCODE_LIMIT, 1073741823);
}
