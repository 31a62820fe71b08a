use qalias::dispatch::{decode_output, render_process_output};
use qalias::errors::QError;

#[test]
fn decode_output_accepts_valid_text() {
    assert_eq!(decode_output(b"hello\n".to_vec()).unwrap(), "hello\n");
    assert_eq!(decode_output(Vec::new()).unwrap(), "");
    assert_eq!(
        decode_output("héllo".as_bytes().to_vec()).unwrap(),
        "héllo"
    );
}

#[test]
fn decode_output_rejects_invalid_bytes() {
    assert_eq!(
        decode_output(vec![0xff, 0xfe]).unwrap_err(),
        QError::OutputDecodeError
    );
    assert_eq!(
        decode_output(vec![0xc3, 0x28]).unwrap_err(),
        QError::OutputDecodeError
    );
}

#[test]
fn success_prints_captured_stdout() {
    let r = render_process_output(true, b"out\n".to_vec(), b"err\n".to_vec());
    assert_eq!(r.unwrap(), "out\n");
}

#[test]
fn failure_prints_captured_stderr() {
    let r = render_process_output(false, b"out\n".to_vec(), b"err\n".to_vec());
    assert_eq!(r.unwrap(), "err\n");
}

#[test]
fn only_the_chosen_stream_must_decode() {
    let r = render_process_output(true, b"ok".to_vec(), vec![0xff]);
    assert_eq!(r.unwrap(), "ok");
    let r = render_process_output(false, vec![0xff], b"err".to_vec());
    assert_eq!(r.unwrap(), "err");
    let r = render_process_output(false, b"out".to_vec(), vec![0xff]);
    assert_eq!(r.unwrap_err(), QError::OutputDecodeError);
}
