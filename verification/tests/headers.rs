use leptos_blog::security::{request_id, security_headers, REQUEST_ID_HEADER};

#[test]
fn response_headers_are_the_documented_ones() {
    let expected: Vec<(&str, &str)> = vec![
        ("X-Frame-Options", "DENY"),
        ("X-Content-Type-Options", "nosniff"),
        ("X-XSS-Protection", "1; mode=block"),
        ("Strict-Transport-Security", "max-age=31536000; includeSubDomains"),
        (
            "Content-Security-Policy",
            "default-src 'self'; script-src 'self' 'unsafe-inline' 'unsafe-eval'; style-src 'self' 'unsafe-inline'; img-src 'self' data: https:; font-src 'self'; connect-src 'self'; frame-ancestors 'none';",
        ),
        ("Referrer-Policy", "strict-origin-when-cross-origin"),
        (
            "Permissions-Policy",
            "camera=(), microphone=(), geolocation=(), payment=(), usb=(), magnetometer=(), gyroscope=()",
        ),
    ];
    assert_eq!(security_headers(), expected);
}

#[test]
fn response_header_names_are_distinct() {
    let headers = security_headers();
    for (i, a) in headers.iter().enumerate() {
        for b in headers.iter().skip(i + 1) {
            assert_ne!(a.0.to_ascii_lowercase(), b.0.to_ascii_lowercase());
        }
    }
}

#[test]
fn response_headers_are_valid_header_names_and_values() {
    for (name, value) in security_headers() {
        assert!(headers::HeaderName::from_bytes(name.as_bytes()).is_ok());
        assert!(headers::HeaderValue::from_str(value).is_ok());
    }
}

#[test]
fn request_is_tagged_under_one_name() {
    let (name, id) = request_id();
    assert_eq!(name, "x-request-id");
    assert_eq!(name, REQUEST_ID_HEADER);
    assert_eq!(id.len(), 36);
    assert!(headers::HeaderValue::from_str(&id).is_ok());
}

#[test]
fn request_ids_are_fresh() {
    assert_ne!(request_id().1, request_id().1);
}

#[test]
fn request_id_has_the_usual_shape() {
    for _ in 0..50 {
        let (_, id) = request_id();
        assert_eq!(id.len(), 36);
        for (i, c) in id.chars().enumerate() {
            if i == 8 || i == 13 || i == 18 || i == 23 {
                assert_eq!(c, '-');
            } else {
                assert!(c.is_ascii_digit() || ('a'..='f').contains(&c));
            }
        }
    }
}
