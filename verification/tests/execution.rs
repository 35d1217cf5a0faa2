use nexus_populate::execution::{test_execution_id, ExecutionId, TEST_EXECUTION_UUID};

#[test]
fn test_execution_id_is_the_uuid_that_the_text_spells() {
    assert_eq!(TEST_EXECUTION_UUID, "2cc08a14-5e96-4917-bc70-e98293a3b703");
    assert_eq!(test_execution_id(), ExecutionId(0x2cc08a14_5e96_4917_bc70_e98293a3b703));
    assert_eq!(test_execution_id().0, 0x2cc08a14_5e96_4917_bc70_e98293a3b703u128);
}

#[test]
fn test_execution_id_agrees_with_the_uuid_crate() {
    let parsed = uuid::Uuid::parse_str(TEST_EXECUTION_UUID).unwrap();
    assert_eq!(test_execution_id().0, parsed.as_u128());
    assert_eq!(uuid::Uuid::from_u128(test_execution_id().0).to_string(), TEST_EXECUTION_UUID);
}
