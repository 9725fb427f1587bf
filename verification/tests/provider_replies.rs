use newfm::ids::Uuid;
use newfm::providers::coverart::{found_cover, front_cover_url, CoverKind, HeadReply};
use newfm::providers::deezer::{
    album_cover, artist_image, check_error, found_image, non_empty, DeezerError, Hit,
    SearchResponse,
};
use newfm::providers::lastfm::{
    artist_bio, clean_bio, found_bio, ArtistInfo, ArtistInfoResponse, Bio,
};
use newfm::providers::{classify_request_error, get_json, JsonReply, ProviderError};

const MBID: Uuid = Uuid { bits: 0x5b11_f4ce_a62d_471e_81fc_a69a_8278_c7da };

fn params(request: &newfm::providers::HttpGet) -> Vec<(&str, &str)> {
    request.query.iter().map(|(k, v)| (k.as_str(), v.as_str())).collect()
}

fn response(status: u16, retry_after: Option<&str>) -> JsonReply<i32> {
    JsonReply::Response {
        status,
        retry_after: retry_after.map(|s| s.to_string()),
        body: Ok(5),
    }
}

#[test]
fn a_success_brings_the_decoded_body() {
    assert_eq!(get_json("deezer", response(200, None)), (Ok(Some(5)), None));
    assert_eq!(get_json("deezer", response(299, None)), (Ok(Some(5)), None));
}

#[test]
fn a_404_is_no_match() {
    assert_eq!(get_json("deezer", response(404, None)), (Ok(None), None));
}

#[test]
fn throttling_cools_the_provider_down() {
    let (result, cooldown) = get_json("musicbrainz", response(503, Some("7")));
    assert_eq!(
        result,
        Err(ProviderError::Transient(
            "musicbrainz: HTTP 503 Service Unavailable, cooling down 7s".to_string()
        ))
    );
    assert_eq!(cooldown, Some(7));
    let (result, cooldown) = get_json("musicbrainz", response(429, None));
    assert_eq!(
        result,
        Err(ProviderError::Transient(
            "musicbrainz: HTTP 429 Too Many Requests, cooling down 60s".to_string()
        ))
    );
    assert_eq!(cooldown, Some(60));
    // A date is no number of seconds.
    let dated = response(429, Some("Wed, 21 Oct 2015 07:28:00 GMT"));
    assert_eq!(get_json("musicbrainz", dated).1, Some(60));
}

#[test]
fn server_errors_are_transient_and_other_statuses_fatal() {
    assert_eq!(
        get_json("lastfm", response(500, None)),
        (
            Err(ProviderError::Transient("lastfm: HTTP 500 Internal Server Error".to_string())),
            None
        )
    );
    assert_eq!(
        get_json("lastfm", response(403, None)),
        (Err(ProviderError::Fatal("lastfm: HTTP 403 Forbidden".to_string())), None)
    );
    assert_eq!(
        get_json("lastfm", response(302, None)).0,
        Err(ProviderError::Fatal("lastfm: HTTP 302 Found".to_string()))
    );
    assert_eq!(
        get_json("lastfm", response(599, None)).0,
        Err(ProviderError::Transient("lastfm: HTTP 599 <unknown status code>".to_string()))
    );
}

#[test]
fn a_bad_body_is_fatal() {
    let reply: JsonReply<i32> = JsonReply::Response {
        status: 200,
        retry_after: None,
        body: Err("expected value".to_string()),
    };
    assert_eq!(
        get_json("deezer", reply),
        (
            Err(ProviderError::Fatal("deezer: bad response body: expected value".to_string())),
            None
        )
    );
}

#[test]
fn connectivity_problems_are_worth_a_retry() {
    let timeout: JsonReply<i32> =
        JsonReply::Failed { retryable: true, message: "timed out".to_string() };
    assert_eq!(
        get_json("deezer", timeout),
        (Err(ProviderError::Transient("deezer: timed out".to_string())), None)
    );
    assert_eq!(
        classify_request_error("deezer", false, "redirect loop"),
        ProviderError::Fatal("deezer: redirect loop".to_string())
    );
}

#[test]
fn provider_errors_describe_themselves() {
    assert_eq!(ProviderError::Transient("x".to_string()).message(), "transient: x");
    assert_eq!(ProviderError::Fatal("x".to_string()).message(), "fatal: x");
}

#[test]
fn covers_have_a_canonical_address() {
    assert_eq!(
        front_cover_url(CoverKind::Release, MBID),
        "https://coverartarchive.org/release/5b11f4ce-a62d-471e-81fc-a69a8278c7da/front-500"
    );
    assert_eq!(
        front_cover_url(CoverKind::ReleaseGroup, MBID),
        "https://coverartarchive.org/release-group/5b11f4ce-a62d-471e-81fc-a69a8278c7da/front-500"
    );
    assert_eq!(CoverKind::Release.segment(), "release");
    assert_eq!(CoverKind::ReleaseGroup.segment(), "release-group");
}

#[test]
fn a_found_cover_is_stored_under_the_asked_address() {
    let url = "https://coverartarchive.org/x".to_string();
    assert_eq!(
        found_cover(url.clone(), HeadReply::Response { status: 200 }),
        (Ok(Some(url.clone())), None)
    );
    assert_eq!(found_cover(url.clone(), HeadReply::Response { status: 404 }), (Ok(None), None));
    assert_eq!(found_cover(url.clone(), HeadReply::Response { status: 400 }), (Ok(None), None));
    assert_eq!(
        found_cover(url.clone(), HeadReply::Response { status: 429 }),
        (
            Err(ProviderError::Transient("coverart: HTTP 429 Too Many Requests".to_string())),
            Some(60)
        )
    );
    assert_eq!(
        found_cover(url.clone(), HeadReply::Response { status: 502 }),
        (Err(ProviderError::Transient("coverart: HTTP 502 Bad Gateway".to_string())), None)
    );
    assert_eq!(
        found_cover(url, HeadReply::Failed { retryable: false, message: "loop".to_string() }),
        (Err(ProviderError::Fatal("coverart: loop".to_string())), None)
    );
}

#[test]
fn deezer_is_searched_by_name() {
    let request = artist_image("Björk");
    assert_eq!(request.url, "https://api.deezer.com/search/artist");
    assert_eq!(params(&request), vec![("q", "Björk"), ("limit", "5")]);
    let request = album_cover("Björk", "Post");
    assert_eq!(request.url, "https://api.deezer.com/search/album");
    assert_eq!(params(&request), vec![("q", "artist:\"Björk\" album:\"Post\""), ("limit", "5")]);
}

fn hit(name: &str, image: Option<&str>) -> Hit {
    Hit { name: name.to_string(), image: image.map(|s| s.to_string()) }
}

#[test]
fn an_image_is_taken_from_the_first_hit_of_that_name() {
    let hits = vec![
        hit("Bjork", Some("http://wrong")),
        hit(" BJÖRK ", Some("http://right")),
        hit("Björk", Some("http://later")),
    ];
    let found = found_image("Björk", Ok(Some(SearchResponse { data: hits, error: None })));
    assert_eq!(found, (Ok(Some("http://right".to_string())), None));
}

#[test]
fn a_blank_image_is_none() {
    let hits = vec![hit("Björk", Some("  ")), hit("Björk", Some("http://later"))];
    let found = found_image("Björk", Ok(Some(SearchResponse { data: hits, error: None })));
    assert_eq!(found, (Ok(None), None));
    assert_eq!(non_empty(Some(" ".to_string())), None);
    assert_eq!(non_empty(Some("x".to_string())), Some("x".to_string()));
    assert_eq!(non_empty(None), None);
}

#[test]
fn no_image_of_another_name_is_taken() {
    let hits = vec![hit("Radiohead Tribute", Some("http://wrong"))];
    let found = found_image("Radiohead", Ok(Some(SearchResponse { data: hits, error: None })));
    assert_eq!(found, (Ok(None), None));
    assert_eq!(found_image("Radiohead", Ok(None)), (Ok(None), None));
    let failure = ProviderError::Fatal("x".to_string());
    assert_eq!(
        found_image("Radiohead", Err(failure)),
        (Err(ProviderError::Fatal("x".to_string())), None)
    );
}

#[test]
fn deezer_reports_errors_in_the_body() {
    let quota = SearchResponse {
        data: vec![],
        error: Some(DeezerError { code: 4, message: Some("Quota limit exceeded".to_string()) }),
    };
    assert_eq!(
        check_error(quota),
        (
            Err(ProviderError::Transient("deezer: quota: Quota limit exceeded".to_string())),
            Some(5)
        )
    );
    let other =
        SearchResponse { data: vec![], error: Some(DeezerError { code: 800, message: None }) };
    assert_eq!(
        found_image("x", Ok(Some(other))),
        (Err(ProviderError::Fatal("deezer: error 800: ".to_string())), None)
    );
}

#[test]
fn a_bio_is_asked_for_by_mbid_or_by_name() {
    let request = artist_bio("key", "Björk", Some(MBID));
    assert_eq!(request.url, "https://ws.audioscrobbler.com/2.0/");
    assert_eq!(
        params(&request),
        vec![
            ("method", "artist.getinfo"),
            ("api_key", "key"),
            ("format", "json"),
            ("autocorrect", "1"),
            ("mbid", "5b11f4ce-a62d-471e-81fc-a69a8278c7da"),
        ]
    );
    let request = artist_bio("key", "Björk", None);
    assert_eq!(params(&request)[4], ("artist", "Björk"));
}

#[test]
fn bios_are_cut_at_the_first_link() {
    assert_eq!(
        clean_bio(" An artist. <a href=\"x\">Read more</a> <a href=\"y\">".to_string()),
        Some("An artist.".to_string())
    );
    assert_eq!(clean_bio("Plain".to_string()), Some("Plain".to_string()));
    assert_eq!(clean_bio("  <a href=\"x\">Read more</a>".to_string()), None);
}

fn info(error: Option<i32>, summary: Option<&str>) -> ArtistInfoResponse {
    ArtistInfoResponse {
        artist: Some(ArtistInfo {
            bio: Some(Bio { summary: summary.map(|s| s.to_string()) }),
        }),
        error,
        message: Some("why".to_string()),
    }
}

#[test]
fn lastfm_answers_are_read() {
    assert_eq!(
        found_bio(Ok(Some(info(None, Some("Text <a href="))))),
        (Ok(Some("Text".to_string())), None)
    );
    assert_eq!(found_bio(Ok(Some(info(None, None)))), (Ok(None), None));
    assert_eq!(found_bio(Ok(Some(info(Some(6), None)))), (Ok(None), None));
    assert_eq!(
        found_bio(Ok(Some(info(Some(29), None)))),
        (Err(ProviderError::Transient("lastfm: rate limited: why".to_string())), Some(60))
    );
    assert_eq!(
        found_bio(Ok(Some(info(Some(10), None)))),
        (Err(ProviderError::Fatal("lastfm: error 10: why".to_string())), None)
    );
    assert_eq!(found_bio(Ok(None)), (Ok(None), None));
}
