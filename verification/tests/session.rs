use optibridge::commands::{
    begin_upload, cache_processed, finish_upload, greet, handle_text, history_record,
    history_record_with, lookup_cached, parse_provider, prepare_upload, resolve_handle, Provider,
    ProviderRequest,
};
use optibridge::image_processor::ImageProcessor;
use optibridge::models::Config;
use optibridge::state::AppState;

fn png_of(width: u32, height: u32) -> Vec<u8> {
    let img = image::RgbaImage::from_fn(width, height, |x, y| {
        image::Rgba([(x % 256) as u8, (y % 256) as u8, 128, 255])
    });
    let mut buffer = Vec::new();
    image::DynamicImage::ImageRgba8(img)
        .write_to(&mut std::io::Cursor::new(&mut buffer), image::ImageFormat::Png)
        .unwrap();
    buffer
}

fn config() -> Config {
    let mut c = Config::default();
    c.cloudinary_cloud_name = "demo".to_string();
    c.cloudinary_api_key = "key123".to_string();
    c.cloudinary_api_secret = "abcd".to_string();
    c.r2_access_key_id = "AKID".to_string();
    c.r2_secret_access_key = "SECRET".to_string();
    c.r2_bucket_name = "bucket".to_string();
    c.r2_endpoint = "https://acc.r2.example.com".to_string();
    c.r2_public_domain = "https://cdn.example.com/".to_string();
    c
}

#[test]
fn default_config() {
    let c = Config::default();
    assert_eq!(c.settings_max_width, 1600);
    assert!(c.settings_auto_webp);
    assert_eq!(c.cloudinary_cloud_name, "");
    assert_eq!(c.cloudinary_api_key, "");
    assert_eq!(c.cloudinary_api_secret, "");
    assert_eq!(c.r2_access_key_id, "");
    assert_eq!(c.r2_secret_access_key, "");
    assert_eq!(c.r2_bucket_name, "");
    assert_eq!(c.r2_endpoint, "");
    assert_eq!(c.r2_public_domain, "");
}

#[test]
fn cache_starts_empty() {
    let state = AppState::new();
    assert!(state.image_cache.is_empty());
    assert_eq!(state.get(1), None);
    assert!(!state.contains(1));
}

#[test]
fn handle_resolves_until_removed() {
    let mut state = AppState::new();
    let id = state.insert(vec![1, 2, 3]);
    assert_eq!(state.get(id), Some(vec![1, 2, 3]));
    assert_eq!(state.get(id), Some(vec![1, 2, 3]));
    assert!(state.contains(id));
    state.remove(id);
    assert_eq!(state.get(id), None);
    assert!(!state.contains(id));
    state.remove(id);
    assert_eq!(state.get(id), None);
}

#[test]
fn store_replaces_and_leaves_others() {
    let mut state = AppState::new();
    state.store(5, vec![5]);
    state.store(6, vec![6]);
    state.store(5, vec![50]);
    assert_eq!(state.get(5), Some(vec![50]));
    assert_eq!(state.get(6), Some(vec![6]));
    state.remove(5);
    assert_eq!(state.get(6), Some(vec![6]));
    assert_eq!(state.get(5), None);
}

#[test]
fn many_inserts_get_distinct_handles() {
    let mut state = AppState::new();
    let mut ids: Vec<u128> = Vec::new();
    for n in 0..64u8 {
        ids.push(state.insert(vec![n; 3]));
    }
    for (n, id) in ids.iter().enumerate() {
        assert_eq!(state.get(*id), Some(vec![n as u8; 3]));
        assert_eq!(ids.iter().filter(|other| *other == id).count(), 1);
    }
    assert_eq!(state.image_cache.len(), 64);
}

#[test]
fn interleaved_callers_share_one_cache() {
    let shared = std::sync::Mutex::new(AppState::new());
    let mut handles: Vec<(u128, u8)> = Vec::new();
    for round in 0..8u8 {
        for caller in 0..4u8 {
            let tag = round * 4 + caller;
            let id = shared.lock().unwrap().insert(vec![tag; 2]);
            handles.push((id, tag));
        }
    }
    for (id, tag) in &handles {
        assert_eq!(shared.lock().unwrap().get(*id), Some(vec![*tag; 2]));
    }
}

#[test]
fn handle_text_round_trip() {
    let id: u128 = 0x0123456789abcdef0123456789abcdef;
    assert_eq!(handle_text(id), "01234567-89ab-cdef-0123-456789abcdef");
    assert_eq!(resolve_handle("01234567-89ab-cdef-0123-456789abcdef"), Some(id));
    assert_eq!(resolve_handle("01234567-89AB-CDEF-0123-456789ABCDEF"), None);
    assert_eq!(resolve_handle("0123456789abcdef0123456789abcdef"), None);
    assert_eq!(resolve_handle("not a handle"), None);
    assert_eq!(resolve_handle(""), None);
}

#[test]
fn greeting() {
    assert_eq!(greet("Ada"), "Hello, Ada! Welcome to OptiBridge.");
    assert_eq!(greet(""), "Hello, ! Welcome to OptiBridge.");
}

#[test]
fn provider_tags() {
    assert_eq!(parse_provider("cloudinary"), Ok(Provider::Cloudinary));
    assert_eq!(parse_provider("r2"), Ok(Provider::R2));
    assert_eq!(parse_provider("ftp"), Err("Invalid provider".to_string()));
    assert_eq!(parse_provider("R2"), Err("Invalid provider".to_string()));
    assert_eq!(parse_provider(""), Err("Invalid provider".to_string()));
}

#[test]
fn cache_processed_describes_and_stores() {
    let mut state = AppState::new();
    let processor = ImageProcessor::new(1600);
    let res = cache_processed(&mut state, &processor, vec![0, 1, 2, 250, 251, 252, 253]);
    assert_eq!(res.preview_base64, "AAEC+vv8/Q==");
    assert_eq!(res.size_info, "0.01 KB");
    assert_eq!(res.temp_id.len(), 36);
    assert_eq!(lookup_cached(&state, &res.temp_id), Ok(vec![0, 1, 2, 250, 251, 252, 253]));
}

#[test]
fn lookup_of_unknown_handle_fails() {
    let state = AppState::new();
    assert_eq!(
        lookup_cached(&state, "01234567-89ab-cdef-0123-456789abcdef"),
        Err("Image not found in cache".to_string())
    );
    assert_eq!(lookup_cached(&state, "nonsense"), Err("Image not found in cache".to_string()));
}

#[test]
fn invalid_provider_is_refused() {
    let res = prepare_upload("ftp", &config(), &[1, 2, 3], 1700000000);
    assert!(matches!(res, Err(ref m) if m == "Invalid provider"));
}

#[test]
fn prepare_upload_for_cloudinary() {
    match prepare_upload("cloudinary", &config(), &[1, 2, 3], 1700000000) {
        Ok(ProviderRequest::Multipart(req)) => {
            assert_eq!(req.url, "https://api.cloudinary.com/v1_1/demo/image/upload");
            assert_eq!(req.file, vec![1, 2, 3]);
            assert_eq!(req.file_name, "image.webp");
            assert_eq!(req.mime, "image/webp");
            assert_eq!(req.timestamp, "1700000000");
            assert_eq!(req.api_key, "key123");
            assert_eq!(req.signature, "565e337b7f63b66286d82fccb51ae468584c7d5d");
        }
        other => panic!("unexpected {:?}", other),
    }
}

#[test]
fn prepare_upload_for_r2() {
    match prepare_upload("r2", &config(), &[1, 2, 3], 1700000000) {
        Ok(ProviderRequest::PutObject(req)) => {
            assert_eq!(req.endpoint, "https://acc.r2.example.com");
            assert_eq!(req.region, "auto");
            assert_eq!(req.access_key_id, "AKID");
            assert_eq!(req.secret_access_key, "SECRET");
            assert_eq!(req.bucket, "bucket");
            assert_eq!(req.body, vec![1, 2, 3]);
            assert_eq!(req.content_type, "image/webp");
            assert!(req.key.ends_with(".webp"));
            assert_eq!(resolve_handle(&req.key[..36]).map(handle_text), Some(req.key[..36].to_string()));
        }
        other => panic!("unexpected {:?}", other),
    }
}

#[test]
fn history_record_fields() {
    let item = history_record_with(7, 1700000000, "r2", "https://cdn.example.com/k.webp", &[0, 1, 2]);
    assert_eq!(item.id, "00000000-0000-0000-0000-000000000007");
    assert_eq!(item.provider, "r2");
    assert_eq!(item.original_name, "image.webp");
    assert_eq!(item.url, "https://cdn.example.com/k.webp");
    assert_eq!(item.created_at, 1700000000);
    assert_eq!(item.thumbnail_base64, "AAEC");
}

#[test]
fn history_record_of_undecodable_bytes_fails() {
    let err = history_record("r2", "https://x", b"junk", 1600).unwrap_err();
    assert!(err.starts_with("Failed to load image: "));
}

#[test]
fn upload_with_stub_provider_end_to_end() {
    let mut state = AppState::new();
    let processor = ImageProcessor::new(160);
    let processed = processor.process_from_bytes(&png_of(300, 200)).unwrap();
    let cached = cache_processed(&mut state, &processor, processed.clone());

    let image_data = lookup_cached(&state, &cached.temp_id).unwrap();
    assert_eq!(image_data, processed);
    let request = prepare_upload("cloudinary", &config(), &image_data, 1700000000).unwrap();
    assert!(matches!(request, ProviderRequest::Multipart(_)));
    let url = "https://res.example.com/fixed.webp".to_string();

    let item = history_record("cloudinary", &url, &image_data, 160).unwrap();
    assert_eq!(item.provider, "cloudinary");
    assert_eq!(item.original_name, "image.webp");
    assert_eq!(item.url, url);
    assert!(resolve_handle(&item.id).is_some());
    let thumb_bytes = base64::Engine::decode(
        &base64::engine::general_purpose::STANDARD,
        item.thumbnail_base64.as_bytes(),
    )
    .unwrap();
    let thumb = image::load_from_memory(&thumb_bytes).unwrap();
    assert!(thumb.width() <= 200 && thumb.height() <= 200);
    assert_eq!((thumb.width(), thumb.height()), (200, 134));

    let done = finish_upload(&mut state, &cached.temp_id, Ok(url.clone())).unwrap();
    assert_eq!(done.url, url);
    assert_eq!(
        lookup_cached(&state, &cached.temp_id),
        Err("Image not found in cache".to_string())
    );
    assert!(state.image_cache.is_empty());
}

#[test]
fn failed_upload_keeps_the_cache_entry() {
    let mut state = AppState::new();
    let processor = ImageProcessor::new(1600);
    let cached = cache_processed(&mut state, &processor, vec![4, 5, 6]);
    let res = finish_upload(&mut state, &cached.temp_id, Err("Upload failed: 401".to_string()));
    assert!(matches!(res, Err(ref m) if m == "Upload failed: 401"));
    assert_eq!(lookup_cached(&state, &cached.temp_id), Ok(vec![4, 5, 6]));
}

#[test]
fn finish_with_unknown_handle_changes_nothing() {
    let mut state = AppState::new();
    state.store(9, vec![9]);
    let done = finish_upload(&mut state, "nonsense", Ok("https://u".to_string())).unwrap();
    assert_eq!(done.url, "https://u");
    assert_eq!(state.get(9), Some(vec![9]));
}

#[test]
fn staged_upload_with_stub_provider() {
    let mut state = AppState::new();
    let processor = ImageProcessor::new(160);
    let processed = processor.process_from_bytes(&png_of(300, 200)).unwrap();
    let cached = cache_processed(&mut state, &processor, processed.clone());
    let image_data = lookup_cached(&state, &cached.temp_id).unwrap();

    let (pending, request) =
        begin_upload(&cached.temp_id, "r2", &config(), image_data, 1700000000).unwrap();
    assert_eq!(pending.temp_id, cached.temp_id);
    assert_eq!(pending.provider, "r2");
    assert_eq!(pending.image_data, processed);
    assert_eq!(pending.max_width, 1600);
    let key = match request {
        ProviderRequest::PutObject(req) => {
            assert_eq!(req.body, processed);
            req.key
        }
        other => panic!("unexpected {:?}", other),
    };
    let url = format!("https://cdn.example.com/{}", key);

    let (accepted, item) = pending.replied(Ok(url.clone())).unwrap();
    assert_eq!(accepted.temp_id, cached.temp_id);
    assert_eq!(accepted.url, url);
    assert_eq!(item.provider, "r2");
    assert_eq!(item.original_name, "image.webp");
    assert_eq!(item.url, url);
    let thumb_bytes = base64::Engine::decode(
        &base64::engine::general_purpose::STANDARD,
        item.thumbnail_base64.as_bytes(),
    )
    .unwrap();
    let thumb = image::load_from_memory(&thumb_bytes).unwrap();
    assert!(thumb.width() <= 200 && thumb.height() <= 200);
    assert_eq!(lookup_cached(&state, &cached.temp_id), Ok(processed.clone()));

    let done = accepted.recorded(&mut state, Ok(())).unwrap();
    assert_eq!(done.url, url);
    assert_eq!(
        lookup_cached(&state, &cached.temp_id),
        Err("Image not found in cache".to_string())
    );
}

#[test]
fn staged_upload_with_invalid_provider() {
    let res = begin_upload("01234567-89ab-cdef-0123-456789abcdef", "ftp", &config(), vec![1], 5);
    assert!(matches!(res, Err(ref m) if m == "Invalid provider"));
}

#[test]
fn staged_upload_keeps_cache_when_provider_fails() {
    let mut state = AppState::new();
    let processor = ImageProcessor::new(1600);
    let cached = cache_processed(&mut state, &processor, vec![4, 5, 6]);
    let image_data = lookup_cached(&state, &cached.temp_id).unwrap();
    let (pending, _request) =
        begin_upload(&cached.temp_id, "cloudinary", &config(), image_data, 1700000000).unwrap();
    let res = pending.replied(Err("Upload failed: 500".to_string()));
    assert!(matches!(res, Err(ref m) if m == "Upload failed: 500"));
    assert_eq!(lookup_cached(&state, &cached.temp_id), Ok(vec![4, 5, 6]));
}

#[test]
fn staged_upload_keeps_cache_when_thumbnail_or_store_fails() {
    let mut state = AppState::new();
    let processor = ImageProcessor::new(1600);
    let cached = cache_processed(&mut state, &processor, vec![4, 5, 6]);
    let image_data = lookup_cached(&state, &cached.temp_id).unwrap();
    let (pending, _request) =
        begin_upload(&cached.temp_id, "cloudinary", &config(), image_data, 1700000000).unwrap();
    let res = pending.replied(Ok("https://res.example.com/x.webp".to_string()));
    assert!(matches!(res, Err(ref m) if m.starts_with("Failed to load image: ")));
    assert_eq!(lookup_cached(&state, &cached.temp_id), Ok(vec![4, 5, 6]));

    let webp = processor.process_from_bytes(&png_of(20, 10)).unwrap();
    let second = cache_processed(&mut state, &processor, webp.clone());
    let (pending, _request) =
        begin_upload(&second.temp_id, "cloudinary", &config(), webp.clone(), 1700000000).unwrap();
    let (accepted, _item) = pending.replied(Ok("https://res.example.com/y.webp".to_string())).unwrap();
    let res = accepted.recorded(&mut state, Err("Failed to insert history: locked".to_string()));
    assert!(matches!(res, Err(ref m) if m == "Failed to insert history: locked"));
    assert_eq!(lookup_cached(&state, &second.temp_id), Ok(webp));
}
