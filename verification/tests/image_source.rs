use aigw::anthropic::native_bridge::image_source_to_url;
use aigw::anthropic::native_response::url_to_image_source;
use aigw::anthropic::types::ImageSource;

#[test]
fn base64_source_round_trips_through_data_url() {
    let src = ImageSource::Base64 { media_type: "image/png".to_string(), data: "aW1n".to_string() };
    let url = image_source_to_url(&src);
    assert_eq!(url, "data:image/png;base64,aW1n");
    assert_eq!(url_to_image_source(&url), src);
}

#[test]
fn plain_url_round_trips() {
    let src = ImageSource::Url { url: "https://example.com/cat.png".to_string() };
    let url = image_source_to_url(&src);
    assert_eq!(url, "https://example.com/cat.png");
    assert_eq!(url_to_image_source(&url), src);
}

#[test]
fn non_base64_data_url_stays_a_url_and_writes_back_unchanged() {
    let url = "data:text/plain,hello";
    let src = url_to_image_source(url);
    assert_eq!(src, ImageSource::Url { url: url.to_string() });
    assert_eq!(image_source_to_url(&src), url);
}
