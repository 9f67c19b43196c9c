use dnb_events::auth::AdminGate;
use dnb_events::catalog::Catalog;
use dnb_events::error::CatalogError;
use dnb_events::model::{
    CreateEventRequest, CreateSuggestionRequest, Event, EventsResponse, Organizer,
    UpdateEventRequest, VideoSuggestion,
};
use dnb_events::status::EventStatus;

fn event(id: i64, status: &str, event_date: i64, created_at: i64) -> Event {
    Event {
        id,
        title: format!("Ride {}", id),
        description: Some("Bring your speakers".to_string()),
        organizer: "NH Kolektyw".to_string(),
        organizer_id: Some(2),
        location_name: "Warszawa".to_string(),
        country: Some("Poland".to_string()),
        latitude: 522_297_000,
        longitude: 210_122_000,
        event_date,
        image_url: Some("https://example.com/a.jpg".to_string()),
        video_url: None,
        event_link: Some("https://facebook.com/nhkolektyw".to_string()),
        status: EventStatus::Pending,
        status_str: status.to_string(),
        created_at,
    }
    .with_parsed_status()
}

fn organizer(id: i64, name: &str, slug: &str) -> Organizer {
    Organizer {
        id,
        name: name.to_string(),
        slug: slug.to_string(),
        description: None,
        website: None,
        created_at: 0,
    }
}

fn suggestion(id: i64, event_id: i64, status: &str, created_at: i64) -> VideoSuggestion {
    VideoSuggestion {
        id,
        event_id,
        video_url: format!("https://youtube.com/watch?v={}", id),
        status: status.to_string(),
        created_at,
        event_title: String::new(),
    }
}

fn empty_patch() -> UpdateEventRequest {
    UpdateEventRequest {
        title: None,
        description: None,
        organizer: None,
        location_name: None,
        country: None,
        latitude: None,
        longitude: None,
        event_date: None,
        image_url: None,
        video_url: None,
        event_link: None,
        status: None,
    }
}

fn submission(title: &str) -> CreateEventRequest {
    CreateEventRequest {
        title: title.to_string(),
        description: None,
        organizer: "Dom Whiting".to_string(),
        location_name: "London".to_string(),
        country: Some("United Kingdom".to_string()),
        latitude: 515_074_000,
        longitude: -1_278_000,
        event_date: 1_773_583_200_000_000,
        image_url: Some(String::new()),
        video_url: None,
        event_link: Some("https://facebook.com/events/123456789".to_string()),
    }
}

fn sample() -> Catalog {
    Catalog {
        organizers: vec![
            organizer(1, "Dom Whiting", "dom-whiting"),
            organizer(2, "NH Kolektyw", "nh-kolektyw"),
            organizer(3, "Berlin DNB Crew", "berlin-dnb-crew"),
        ],
        events: vec![
            event(1, "approved", 300, 10),
            event(2, "pending", 100, 30),
            event(3, "approved", 100, 20),
            event(4, "rejected", 50, 40),
            event(5, "Approved", 60, 50),
            event(6, "pending", 400, 60),
            event(7, "garbage", 500, 70),
        ],
        suggestions: vec![
            suggestion(1, 1, "pending", 5),
            suggestion(2, 99, "pending", 9),
            suggestion(3, 3, "approved", 7),
        ],
    }
}

fn ids(events: &[Event]) -> Vec<i64> {
    events.iter().map(|e| e.id).collect()
}

#[test]
fn unknown_stored_status_reads_pending() {
    let c = sample();
    assert_eq!(c.events[6].status, EventStatus::Pending);
    assert_eq!(c.events[4].status, EventStatus::Approved);
    assert_eq!(c.events[3].status, EventStatus::Rejected);
}

#[test]
fn list_approved_only_approved_earliest_first() {
    let c = sample();
    let r = c.list_approved();
    assert_eq!(ids(&r), vec![3, 1]);
    assert!(r.iter().all(|e| e.status_str == "approved"));
    let resp = EventsResponse::new(r);
    assert_eq!(resp.total, 2);
}

#[test]
fn upcoming_and_past_split_at_now() {
    let c = sample();
    assert_eq!(ids(&c.list_upcoming(100)), vec![1]);
    assert_eq!(ids(&c.list_past(100)), vec![3]);
    assert_eq!(ids(&c.list_past(300)), vec![1, 3]);
    assert_eq!(ids(&c.list_upcoming(300)), Vec::<i64>::new());
}

#[test]
fn admin_lists_all_and_pending() {
    let c = sample();
    assert_eq!(ids(&c.list_all()), vec![7, 6, 1, 2, 3, 5, 4]);
    assert_eq!(ids(&c.list_pending()), vec![6, 2]);
}

#[test]
fn list_by_organizer_slug_most_recent_first() {
    let c = sample();
    let r = c.list_by_organizer_slug("nh-kolektyw").unwrap();
    assert_eq!(ids(&r), vec![1, 3]);
    assert_eq!(c.list_by_organizer_slug("dom-whiting").unwrap().len(), 0);
}

#[test]
fn list_by_unknown_slug_is_not_found() {
    let c = sample();
    assert_eq!(c.list_by_organizer_slug("nonexistent").unwrap_err(), CatalogError::NotFound);
}

#[test]
fn organizers_by_name_and_slug() {
    let c = sample();
    let names: Vec<String> = c.list_organizers().into_iter().map(|o| o.name).collect();
    assert_eq!(names, vec!["Berlin DNB Crew", "Dom Whiting", "NH Kolektyw"]);
    assert_eq!(c.get_organizer("dom-whiting").unwrap().id, 1);
    assert_eq!(c.get_organizer("nobody").unwrap_err(), CatalogError::NotFound);
}

#[test]
fn get_by_id_finds_or_not_found() {
    let c = sample();
    assert_eq!(c.get_by_id(3).unwrap().title, "Ride 3");
    assert_eq!(c.get_by_id(42).unwrap_err(), CatalogError::NotFound);
}

#[test]
fn submission_of_three_char_title_is_pending() {
    let mut c = sample();
    let e = c.create_event(submission("Ride"), 1_000).unwrap();
    assert_eq!(e.id, 8);
    assert_eq!(e.status, EventStatus::Pending);
    assert_eq!(e.status_str, "pending");
    assert_eq!(e.created_at, 1_000);
    assert_eq!(e.image_url, None);
    assert_eq!(e.organizer_id, None);
    assert_eq!(c.events.len(), 8);
    assert_eq!(c.get_by_id(8).unwrap().title, "Ride");
}

#[test]
fn submission_of_two_char_title_is_refused() {
    let mut c = sample();
    assert_eq!(c.create_event(submission("Ri"), 1_000).unwrap_err(), CatalogError::Validation);
    assert_eq!(c.events.len(), 7);
}

#[test]
fn first_event_gets_id_one() {
    let mut c = Catalog { organizers: vec![], events: vec![], suggestions: vec![] };
    assert_eq!(c.create_event(submission("Ride"), 5).unwrap().id, 1);
}

#[test]
fn id_space_exhausted_is_store_error() {
    let mut c = Catalog { organizers: vec![], events: vec![event(i64::MAX, "pending", 0, 0)], suggestions: vec![] };
    assert_eq!(c.create_event(submission("Ride"), 5).unwrap_err(), CatalogError::Store);
    assert_eq!(c.events.len(), 1);
}

#[test]
fn empty_patch_is_refused_and_row_unchanged() {
    let mut c = sample();
    assert_eq!(c.update_event(1, empty_patch()).unwrap_err(), CatalogError::Validation);
    let e = c.get_by_id(1).unwrap();
    assert_eq!(e.title, "Ride 1");
    assert_eq!(e.image_url, Some("https://example.com/a.jpg".to_string()));
}

#[test]
fn empty_image_url_clears_it() {
    let mut c = sample();
    let mut p = empty_patch();
    p.image_url = Some(String::new());
    let e = c.update_event(1, p).unwrap();
    assert_eq!(e.image_url, None);
    assert_eq!(c.get_by_id(1).unwrap().image_url, None);
    assert_eq!(e.title, "Ride 1");
    assert_eq!(e.event_link, Some("https://facebook.com/nhkolektyw".to_string()));
}

#[test]
fn patch_touches_only_given_fields() {
    let mut c = sample();
    let mut p = empty_patch();
    p.title = Some("Warsaw Bass Ride".to_string());
    p.description = Some(String::new());
    p.country = Some(String::new());
    p.video_url = Some("https://youtube.com/watch?v=abc".to_string());
    p.latitude = Some(-900_000_000);
    p.status = Some("approved".to_string());
    let e = c.update_event(2, p).unwrap();
    assert_eq!(e.title, "Warsaw Bass Ride");
    assert_eq!(e.description, Some(String::new()));
    assert_eq!(e.country, None);
    assert_eq!(e.video_url, Some("https://youtube.com/watch?v=abc".to_string()));
    assert_eq!(e.latitude, -900_000_000);
    assert_eq!(e.longitude, 210_122_000);
    assert_eq!(e.status, EventStatus::Approved);
    assert_eq!(e.status_str, "approved");
    assert_eq!(e.location_name, "Warszawa");
}

#[test]
fn invalid_patch_changes_nothing() {
    let mut c = sample();
    let mut p = empty_patch();
    p.title = Some("Good title".to_string());
    p.longitude = Some(1_800_000_001);
    assert_eq!(c.update_event(1, p).unwrap_err(), CatalogError::Validation);
    assert_eq!(c.get_by_id(1).unwrap().title, "Ride 1");

    let mut p = empty_patch();
    p.status = Some("published".to_string());
    assert_eq!(c.update_event(1, p).unwrap_err(), CatalogError::Validation);

    let mut p = empty_patch();
    p.image_url = Some("not-a-url".to_string());
    assert_eq!(c.update_event(1, p).unwrap_err(), CatalogError::Validation);
}

#[test]
fn patch_of_missing_event_is_not_found() {
    let mut c = sample();
    let mut p = empty_patch();
    p.title = Some("Good title".to_string());
    assert_eq!(c.update_event(42, p).unwrap_err(), CatalogError::NotFound);
}

#[test]
fn approving_twice_succeeds_both_times() {
    let mut c = sample();
    let first = c.approve_event(7).unwrap();
    assert_eq!(first.status, EventStatus::Approved);
    let second = c.approve_event(7).unwrap();
    assert_eq!(second.status, EventStatus::Approved);
    assert_eq!(second.status_str, "approved");
    assert_eq!(c.get_by_id(7).unwrap().status, EventStatus::Approved);
    assert_eq!(ids(&c.list_approved()), vec![3, 1, 7]);
}

#[test]
fn reject_overwrites_and_missing_is_not_found() {
    let mut c = sample();
    let e = c.reject_event(1).unwrap();
    assert_eq!(e.status, EventStatus::Rejected);
    assert_eq!(e.status_str, "rejected");
    assert_eq!(c.reject_event(42).unwrap_err(), CatalogError::NotFound);
    assert_eq!(c.approve_event(42).unwrap_err(), CatalogError::NotFound);
}

#[test]
fn delete_twice_is_not_found_the_second_time() {
    let mut c = sample();
    assert_eq!(c.delete_event(4), Ok(()));
    assert_eq!(c.events.len(), 6);
    assert_eq!(c.delete_event(4), Err(CatalogError::NotFound));
    assert_eq!(c.get_by_id(4).unwrap_err(), CatalogError::NotFound);
}

#[test]
fn approving_suggestion_updates_event_and_suggestion() {
    let mut c = sample();
    let (e, s) = c.approve_suggestion(1).unwrap();
    assert_eq!(e.id, 1);
    assert_eq!(e.video_url, Some("https://youtube.com/watch?v=1".to_string()));
    assert_eq!(s.status, "approved");
    assert_eq!(c.get_by_id(1).unwrap().video_url, Some("https://youtube.com/watch?v=1".to_string()));
    assert_eq!(c.suggestions[0].status, "approved");
}

#[test]
fn approving_orphaned_suggestion_changes_nothing() {
    let mut c = sample();
    assert_eq!(c.approve_suggestion(2).unwrap_err(), CatalogError::NotFound);
    assert_eq!(c.suggestions[1].status, "pending");
    assert_eq!(c.approve_suggestion(42).unwrap_err(), CatalogError::NotFound);
}

#[test]
fn rejecting_suggestion_touches_no_event() {
    let mut c = sample();
    let s = c.reject_suggestion(1).unwrap();
    assert_eq!(s.status, "rejected");
    assert_eq!(c.get_by_id(1).unwrap().video_url, None);
    assert_eq!(c.reject_suggestion(42).unwrap_err(), CatalogError::NotFound);
}

#[test]
fn suggestion_list_is_pending_newest_first_with_titles() {
    let c = sample();
    let r = c.list_suggestions();
    assert_eq!(r.len(), 2);
    assert_eq!(r[0].id, 2);
    assert_eq!(r[0].event_title, "Unknown Event");
    assert_eq!(r[1].id, 1);
    assert_eq!(r[1].event_title, "Ride 1");
}

#[test]
fn creating_suggestion_validates_link_only() {
    let mut c = sample();
    let s = c
        .create_suggestion(
            CreateSuggestionRequest { event_id: 404, video_url: "https://youtu.be/x".to_string() },
            77,
        )
        .unwrap();
    assert_eq!(s.id, 4);
    assert_eq!(s.status, "pending");
    assert_eq!(s.event_id, 404);
    assert_eq!(s.created_at, 77);
    let bad = CreateSuggestionRequest { event_id: 1, video_url: "not-a-url".to_string() };
    assert_eq!(c.create_suggestion(bad, 78).unwrap_err(), CatalogError::Validation);
    assert_eq!(c.suggestions.len(), 4);
}

#[test]
fn admin_gate_compares_exactly() {
    let gate = AdminGate::new("SECRET-REDACTED".to_string());
    assert!(gate.check_admin_auth(Some("SECRET-REDACTED")));
    assert!(!gate.check_admin_auth(Some("secret-redacted")));
    assert!(!gate.check_admin_auth(None));
    assert_eq!(gate.authorize(Some("wrong")), Err(CatalogError::Unauthorized));
    assert_eq!(gate.authorize(Some("SECRET-REDACTED")), Ok(()));
}
