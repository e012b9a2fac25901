use image_browser::cos_client::{mime_type_for, CosFunction, MimeType, TecentCosUtil};

fn client() -> TecentCosUtil {
    TecentCosUtil::create_cos_client(
        "id".to_string(),
        "key".to_string(),
        "ap-guangzhou".to_string(),
        "bucket-1250000000".to_string(),
    )
    .expect("settings are taken as they are")
}

#[test]
fn client_keeps_its_settings() {
    let c = client();
    assert_eq!(c.bucket(), "bucket-1250000000");
    assert!(format!("{:?}", c.client()).contains("ap-guangzhou"));
    let copy = c.clone();
    assert_eq!(copy.bucket(), "bucket-1250000000");
    assert_eq!(format!("{:?}", copy.client()), format!("{:?}", c.client()));
}

#[test]
fn upload_is_named_by_the_file_and_typed_by_its_extension() {
    let request = client().upload_object("/home/me/cat.png".to_string());
    assert_eq!(request.path, "/home/me/cat.png");
    assert_eq!(request.object_name, "cat.png");
    assert_eq!(request.mime_type, MimeType::ImagePng);
    assert_eq!(client().upload_object("a.jpg".to_string()).mime_type, MimeType::ImageJpeg);
    assert_eq!(client().upload_object("a.jpeg".to_string()).mime_type, MimeType::ImageJpeg);
    assert_eq!(client().upload_object("a.gif".to_string()).mime_type, MimeType::ImageGif);
    assert_eq!(
        client().upload_object("a.PNG".to_string()).mime_type,
        MimeType::ApplicationOctetStream
    );
    assert_eq!(
        client().upload_object("a.webp".to_string()).mime_type,
        MimeType::ApplicationOctetStream
    );
    assert_eq!(
        client().upload_object("noext".to_string()).mime_type,
        MimeType::ApplicationOctetStream
    );
}

#[test]
fn upload_without_a_file_name_gets_the_default_name() {
    let request = client().upload_object("/".to_string());
    assert_eq!(request.object_name, "default_name");
    assert_eq!(request.mime_type, MimeType::ApplicationOctetStream);
    assert_eq!(client().upload_object("".to_string()).object_name, "default_name");
    assert_eq!(client().upload_object("/home/me/..".to_string()).object_name, "default_name");
    assert_eq!(client().upload_object("/home/me/".to_string()).object_name, "me");
}

#[test]
fn download_names_key_and_file() {
    let request = client().download_object("photos/cat.png".to_string(), "/tmp/cat.png".to_string());
    assert_eq!(request.key, "photos/cat.png");
    assert_eq!(request.name, "/tmp/cat.png");
}

#[test]
fn mime_types_are_written_as_in_a_header() {
    assert_eq!(MimeType::ImageJpeg.as_str(), "image/jpeg");
    assert_eq!(MimeType::ImagePng.as_str(), "image/png");
    assert_eq!(MimeType::ImageGif.as_str(), "image/gif");
    assert_eq!(MimeType::ApplicationOctetStream.as_str(), "application/octet-stream");
    assert_eq!(mime_type_for(&"png".to_string()), MimeType::ImagePng);
    assert_eq!(mime_type_for(&"".to_string()), MimeType::ApplicationOctetStream);
}
