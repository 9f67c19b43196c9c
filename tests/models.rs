use dnb_events::error::CatalogError;
use dnb_events::model::{CreateEventRequest, CreateSuggestionRequest};
use dnb_events::status::EventStatus;

#[test]
fn test_event_status_parsing() {
    assert_eq!(EventStatus::from("approved".to_string()), EventStatus::Approved);
    assert_eq!(EventStatus::from("Approved".to_string()), EventStatus::Approved);
    assert_eq!(EventStatus::from("APPROVED".to_string()), EventStatus::Approved);
    assert_eq!(EventStatus::from("rejected".to_string()), EventStatus::Rejected);
    assert_eq!(EventStatus::from("pending".to_string()), EventStatus::Pending);
    assert_eq!(EventStatus::from("unknown".to_string()), EventStatus::Pending);
    assert_eq!(EventStatus::from("".to_string()), EventStatus::Pending);
}

#[test]
fn test_event_status_to_string() {
    assert_eq!(EventStatus::Approved.to_string(), "approved");
    assert_eq!(EventStatus::Rejected.to_string(), "rejected");
    assert_eq!(EventStatus::Pending.to_string(), "pending");
}

#[test]
fn test_create_event_request_validation() {
    let valid_request = CreateEventRequest {
        title: "Valid Title".to_string(),
        description: None,
        organizer: "Organizer".to_string(),
        location_name: "Location".to_string(),
        country: Some("Country".to_string()),
        latitude: 500_000_000,
        longitude: 100_000_000,
        event_date: chrono::Utc::now().timestamp_micros(),
        image_url: Some("https://example.com/image.jpg".to_string()),
        video_url: None,
        event_link: None,
    };
    assert!(valid_request.validate().is_ok());

    let invalid_title = CreateEventRequest {
        title: "No".to_string(),
        ..valid_request.clone()
    };
    assert!(invalid_title.validate().is_err());

    let invalid_coords = CreateEventRequest {
        latitude: 1_000_000_000,
        ..valid_request.clone()
    };
    assert!(invalid_coords.validate().is_err());

    let invalid_url = CreateEventRequest {
        image_url: Some("not-a-url".to_string()),
        ..valid_request.clone()
    };
    assert!(invalid_url.validate().is_err());
}

#[test]
fn test_create_suggestion_request_validation() {
    let valid = CreateSuggestionRequest {
        event_id: 1,
        video_url: "https://youtube.com/watch?v=123".to_string(),
    };
    assert!(valid.validate().is_ok());

    let invalid = CreateSuggestionRequest {
        event_id: 1,
        video_url: "not-a-url".to_string(),
    };
    assert!(invalid.validate().is_err());
}

fn request(title: &str, latitude: i64, longitude: i64) -> CreateEventRequest {
    CreateEventRequest {
        title: title.to_string(),
        description: None,
        organizer: "Dom Whiting".to_string(),
        location_name: "London".to_string(),
        country: None,
        latitude,
        longitude,
        event_date: 1_773_583_200_000_000,
        image_url: None,
        video_url: None,
        event_link: None,
    }
}

#[test]
fn latitude_bounds_are_inclusive() {
    assert_eq!(request("Ride", 900_000_000, 0).validate(), Ok(()));
    assert_eq!(request("Ride", -900_000_000, 0).validate(), Ok(()));
    assert_eq!(request("Ride", 900_001_000, 0).validate(), Err(CatalogError::Validation));
    assert_eq!(request("Ride", -900_001_000, 0).validate(), Err(CatalogError::Validation));
}

#[test]
fn longitude_bounds_are_inclusive() {
    assert_eq!(request("Ride", 0, 1_800_000_000).validate(), Ok(()));
    assert_eq!(request("Ride", 0, -1_800_000_000).validate(), Ok(()));
    assert_eq!(request("Ride", 0, 1_800_001_000).validate(), Err(CatalogError::Validation));
    assert_eq!(request("Ride", 0, -1_800_001_000).validate(), Err(CatalogError::Validation));
}

#[test]
fn empty_organizer_or_location_is_refused() {
    let mut r = request("Ride", 0, 0);
    r.organizer = String::new();
    assert_eq!(r.validate(), Err(CatalogError::Validation));
    let mut r = request("Ride", 0, 0);
    r.location_name = String::new();
    assert_eq!(r.validate(), Err(CatalogError::Validation));
}

#[test]
fn title_length_counts_characters() {
    assert_eq!(request("Ümß", 0, 0).validate(), Ok(()));
    assert_eq!(request("Üm", 0, 0).validate(), Err(CatalogError::Validation));
}

#[test]
fn empty_link_is_accepted_on_submission() {
    let mut r = request("Ride", 0, 0);
    r.event_link = Some(String::new());
    assert_eq!(r.validate(), Ok(()));
}

#[test]
fn empty_suggestion_link_is_refused() {
    let s = CreateSuggestionRequest { event_id: 1, video_url: String::new() };
    assert_eq!(s.validate(), Err(CatalogError::Validation));
}

#[test]
fn status_names_and_default() {
    assert_eq!(EventStatus::default(), EventStatus::Pending);
    assert_eq!(EventStatus::Approved.as_str(), "approved");
    assert_eq!(EventStatus::from_lowered("rejected"), EventStatus::Rejected);
    assert_eq!(EventStatus::from_lowered("Rejected"), EventStatus::Pending);
    assert_eq!(EventStatus::from("ReJeCtEd".to_string()), EventStatus::Rejected);
    assert_eq!(EventStatus::from("approved ".to_string()), EventStatus::Pending);
}
