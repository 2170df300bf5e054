use request_body::{serialized, Body, Error, Plain, RequestAdapter};

struct Echo;

impl RequestAdapter<Vec<u8>> for Echo {
    fn serialize(&self, value: &Vec<u8>, out: &mut Vec<u8>) -> Result<(), Error> {
        out.extend_from_slice(value);
        Ok(())
    }
}

impl RequestAdapter<u32> for Echo {
    fn serialize(&self, value: &u32, out: &mut Vec<u8>) -> Result<(), Error> {
        out.extend_from_slice(value.to_string().as_bytes());
        Ok(())
    }
}

struct Failing;

impl RequestAdapter<u32> for Failing {
    fn serialize(&self, _value: &u32, out: &mut Vec<u8>) -> Result<(), Error> {
        out.extend_from_slice(b"{\"half\":");
        Err(Error::Serialization("cannot encode".to_string()))
    }
}

struct Checking;

impl RequestAdapter<u32> for Checking {
    fn serialize(&self, _value: &u32, out: &mut Vec<u8>) -> Result<(), Error> {
        assert!(out.is_empty());
        out.push(7);
        Ok(())
    }
}

#[test]
fn plain_value_gives_the_bytes_the_collaborator_wrote() {
    let body = Plain(vec![0u8, 1, 2, 255, 254]).into_readable(&Echo).unwrap();
    assert_eq!(body, vec![0u8, 1, 2, 255, 254]);
    let body = Plain(4711u32).into_readable(&Echo).unwrap();
    assert_eq!(body, b"4711".to_vec());
}

#[test]
fn plain_value_with_nothing_written_gives_no_bytes() {
    let body = Plain(Vec::<u8>::new()).into_readable(&Echo).unwrap();
    assert!(body.is_empty());
}

#[test]
fn collaborator_gets_an_empty_buffer() {
    let body = Plain(1u32).into_readable(&Checking).unwrap();
    assert_eq!(body, vec![7u8]);
}

#[test]
fn failure_of_the_collaborator_is_handed_on() {
    match Plain(1u32).into_readable(&Failing) {
        Err(Error::Serialization(report)) => assert_eq!(report, "cannot encode"),
        Err(other) => panic!("another failure: {:?}", other),
        Ok(bytes) => panic!("a partial stream: {:?}", bytes),
    }
}

#[test]
fn serialized_keeps_the_bytes_on_success() {
    let body = serialized(vec![1u8, 2, 3], Ok(())).unwrap();
    assert_eq!(body, vec![1u8, 2, 3]);
    let body = serialized(Vec::new(), Ok(())).unwrap();
    assert!(body.is_empty());
}

#[test]
fn serialized_drops_the_bytes_on_failure() {
    match serialized(vec![1u8, 2, 3], Err(Error::Serialization("no".to_string()))) {
        Err(Error::Serialization(report)) => assert_eq!(report, "no"),
        Err(other) => panic!("another failure: {:?}", other),
        Ok(bytes) => panic!("a partial stream: {:?}", bytes),
    }
}
