use filebin_img_uploader::digits::u16_dec;
use filebin_img_uploader::errors::UploadError;
use filebin_img_uploader::pipeline::{
    app_name, failure_notice, form_part_name, notification_summary, NOTIFICATION_TIMEOUT_MS,
};

#[test]
fn fixed_error_messages() {
    assert_eq!(
        UploadError::Recognition.message(),
        "Couldn't recognize file type"
    );
    assert_eq!(
        UploadError::MissingField.message(),
        "Couldn't find id in server response"
    );
}

#[test]
fn carried_messages_pass_through() {
    assert_eq!(
        UploadError::Config(String::from("environment variable not found")).message(),
        "environment variable not found"
    );
    assert_eq!(
        UploadError::Network(String::from("connection refused")).message(),
        "connection refused"
    );
    assert_eq!(UploadError::Io(String::from("broken pipe")).message(), "broken pipe");
}

#[test]
fn status_messages_render_the_code_in_decimal() {
    assert_eq!(
        UploadError::Status(404).message(),
        "upload failed with HTTP status 404"
    );
    assert_eq!(
        UploadError::Status(0).message(),
        "upload failed with HTTP status 0"
    );
    assert_eq!(
        UploadError::Status(65535).message(),
        "upload failed with HTTP status 65535"
    );
}

#[test]
fn decimal_rendering() {
    assert_eq!(u16_dec(0), "0");
    assert_eq!(u16_dec(7), "7");
    assert_eq!(u16_dec(10), "10");
    assert_eq!(u16_dec(299), "299");
    assert_eq!(u16_dec(60000), "60000");
}

#[test]
fn failure_notice_quotes_the_description() {
    assert_eq!(
        failure_notice(&UploadError::Recognition),
        "Image uploader failed with \"Couldn't recognize file type\""
    );
    assert_eq!(
        failure_notice(&UploadError::Clipboard(String::from("no wayland socket"))),
        "Image uploader failed with \"no wayland socket\""
    );
}

#[test]
fn notification_constants() {
    assert_eq!(app_name(), "filebin-img-uploader");
    assert_eq!(notification_summary(), "Screenshot");
    assert_eq!(form_part_name(), "file");
    assert_eq!(NOTIFICATION_TIMEOUT_MS, 5000);
}
