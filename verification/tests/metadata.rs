use semantic_explorer_api::metadata::ModelMetadataService;

#[test]
fn test_get_dimensions() {
    let service = ModelMetadataService::new();

    assert_eq!(service.get_dimensions("text-embedding-3-small"), Some(1536));
    assert_eq!(service.get_dimensions("embed-v4.0"), Some(1536));
    assert_eq!(service.get_dimensions("unknown-model"), None);
}

#[test]
fn known_model_table() {
    let service = ModelMetadataService::new();
    assert_eq!(service.get_dimensions("text-embedding-3-large"), Some(3072));
    assert_eq!(service.get_dimensions("text-embedding-ada-002"), Some(1536));
    assert_eq!(service.get_dimensions("embed-english-v3.0"), Some(1024));
    assert_eq!(service.get_dimensions("embed-multilingual-v3.0"), Some(1024));
    assert_eq!(service.get_dimensions("embed-english-light-v3.0"), Some(384));
    assert_eq!(service.get_dimensions("embed-multilingual-light-v3.0"), Some(384));
    assert_eq!(service.get_dimensions("embed-english-v2.0"), Some(4096));
    assert_eq!(service.get_dimensions("embed-english-light-v2.0"), Some(1024));
    assert_eq!(service.get_dimensions("embed-multilingual-v2.0"), Some(768));
    assert_eq!(service.get_dimensions("TEXT-EMBEDDING-3-SMALL"), None);
    assert_eq!(service.get_dimensions(""), None);
}
