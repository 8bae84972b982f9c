use typed_ast::bench::TxType;

#[test]
fn labels_select_the_transaction_flavor() {
    assert!(TxType::from_label("transfer") == TxType::Transfer);
    assert!(TxType::from_label("blog") == TxType::Blog);
    assert!(TxType::from_label("empty") == TxType::Empty);
}

#[test]
fn unknown_labels_fall_back_to_empty() {
    assert!(TxType::from_label("") == TxType::Empty);
    assert!(TxType::from_label("Transfer") == TxType::Empty);
    assert!(TxType::from_label("anything else") == TxType::Empty);
}

#[test]
fn parsing_never_fails() {
    assert!("transfer".parse::<TxType>() == Ok(TxType::Transfer));
    assert!("blog".parse::<TxType>() == Ok(TxType::Blog));
    assert!("garbage".parse::<TxType>() == Ok(TxType::Empty));
}

#[test]
fn labels_round_trip() {
    assert_eq!(TxType::Transfer.label(), "transfer");
    assert_eq!(TxType::Blog.label(), "blog");
    assert_eq!(TxType::Empty.label(), "empty");
    assert!(TxType::from_label(&TxType::Transfer.label()) == TxType::Transfer);
}
