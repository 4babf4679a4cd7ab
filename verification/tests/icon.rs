use nono_app::icon::{icon_data_uri, mime_for};

#[test]
fn mixed_case_png_suffix_is_labelled_png() {
    let uri = icon_data_uri(&"photo.PNG".to_string(), &vec![1, 2, 3]);
    assert!(uri.starts_with("data:image/png;base64,"));
}

#[test]
fn gif_suffix_is_labelled_jpeg_by_design() {
    let uri = icon_data_uri(&"photo.gif".to_string(), &vec![b'G', b'I', b'F']);
    assert!(uri.starts_with("data:image/jpeg;base64,"));
}

#[test]
fn data_uri_holds_the_standard_base64_of_the_bytes() {
    assert_eq!(
        icon_data_uri(&"a.png".to_string(), &b"abc".to_vec()),
        "data:image/png;base64,YWJj".to_string()
    );
    assert_eq!(
        icon_data_uri(&"a.png".to_string(), &b"a".to_vec()),
        "data:image/png;base64,YQ==".to_string()
    );
    assert_eq!(
        icon_data_uri(&"a.png".to_string(), &b"ab".to_vec()),
        "data:image/png;base64,YWI=".to_string()
    );
}

#[test]
fn empty_file_gives_an_empty_payload() {
    assert_eq!(
        icon_data_uri(&"a.jpg".to_string(), &Vec::new()),
        "data:image/jpeg;base64,".to_string()
    );
}

#[test]
fn mime_label_cases() {
    assert_eq!(mime_for(&"x.png".to_string()), "image/png");
    assert_eq!(mime_for(&"x.PnG".to_string()), "image/png");
    assert_eq!(mime_for(&".png".to_string()), "image/png");
    assert_eq!(mime_for(&"x.png.jpg".to_string()), "image/jpeg");
    assert_eq!(mime_for(&"png".to_string()), "image/jpeg");
    assert_eq!(mime_for(&"x.jpeg".to_string()), "image/jpeg");
    assert_eq!(mime_for(&"".to_string()), "image/jpeg");
}
