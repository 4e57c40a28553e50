use slam_viewer::pipes::module::{ShaderError, StaticShaderModule};

const LITTLE_ENDIAN: &[u8] = b"\x03\x02\x23\x07\x00\x00\x01\x00\x78\x56\x34\x12";
const BIG_ENDIAN: &[u8] = b"\x07\x23\x02\x03\x00\x01\x00\x00\x12\x34\x56\x78";
const MISALIGNED: &[u8] = b"\x03\x02\x23\x07\x00";
const NO_MAGIC: &[u8] = b"\x00\x01\x02\x03\x04\x05\x06\x07";
const EMPTY: &[u8] = b"";

fn module(bytes: &'static [u8]) -> StaticShaderModule {
    StaticShaderModule { spirv_source: bytes, entry_point: None }
}

#[test]
fn entry_point_defaults_to_main() {
    assert_eq!(module(LITTLE_ENDIAN).entry_point(), "main");
}

#[test]
fn entry_point_is_the_configured_one() {
    let module = StaticShaderModule { spirv_source: LITTLE_ENDIAN, entry_point: Some("vs_main") };
    assert_eq!(module.entry_point(), "vs_main");
}

#[test]
fn words_of_a_little_endian_blob() {
    assert_eq!(module(LITTLE_ENDIAN).words(), Ok(vec![0x0723_0203, 0x0001_0000, 0x1234_5678]));
}

#[test]
fn words_of_a_big_endian_blob() {
    assert_eq!(module(BIG_ENDIAN).words(), Ok(vec![0x0723_0203, 0x0001_0000, 0x1234_5678]));
}

#[test]
fn words_of_a_blob_that_is_only_the_magic_number() {
    assert_eq!(module(&LITTLE_ENDIAN[..4]).words(), Ok(vec![0x0723_0203]));
}

#[test]
fn misaligned_blob_is_refused() {
    assert_eq!(module(MISALIGNED).words(), Err(ShaderError::Misaligned));
}

#[test]
fn blob_without_magic_number_is_refused() {
    assert_eq!(module(NO_MAGIC).words(), Err(ShaderError::MissingMagic));
}

#[test]
fn empty_blob_is_refused() {
    assert_eq!(module(EMPTY).words(), Err(ShaderError::MissingMagic));
}
