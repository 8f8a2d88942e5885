use pi_kernel::builder::Builder;

#[test]
fn builder_texts() {
    assert_eq!(Builder::default().to_string(), "");
    assert_eq!(Builder::default().string("hi").to_string(), "hi");
    assert_eq!(Builder::default().number(254).to_string(), "254");
    assert_eq!(
        Builder::default().string("hello, world!").number(200).to_string(),
        "hello, world! 200"
    );
    assert_eq!(
        Builder::default().string("hello, world!").number(200).string("bye now!").to_string(),
        "bye now! 200"
    );
    assert_eq!(Builder::default().string(&"heap!".to_owned()).to_string(), "heap!");
    assert_eq!(Builder::default().number(0).to_string(), "0");
}
