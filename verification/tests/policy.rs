use bingwall::errors::RunError;
use bingwall::fetch::ensure_today_image_plan;
use bingwall::fetch::first_image_urlbase;
use bingwall::fetch::image_url_from_metadata;
use bingwall::naming::cache_subdir;
use bingwall::naming::image_url;
use bingwall::naming::target_filename;
use bingwall::naming::target_path;
use bingwall::prune::plan_prune;
use bingwall::prune::PruneEntry;
use bingwall::prune::RETENTION_COUNT;
use bingwall::resolve::cache_dir_path;
use bingwall::resolve::resolve_base_dir;

fn entry(id: usize, modified: Option<u64>) -> PruneEntry {
    PruneEntry { id, modified }
}

fn ids(entries: &[PruneEntry]) -> Vec<usize> {
    entries.iter().map(|e| e.id).collect()
}

#[test]
fn date_keyed_filename() {
    assert_eq!(target_filename("2023-10-27"), "bing_2023-10-27.jpg");
}

#[test]
fn date_keyed_target_path() {
    assert_eq!(
        target_path("/home/u/Pictures/BingWallpapers", "2023-10-27"),
        "/home/u/Pictures/BingWallpapers/bing_2023-10-27.jpg"
    );
}

#[test]
fn image_url_concatenation() {
    assert_eq!(
        image_url("/th?id=OHR.Example"),
        "https://www.bing.com/th?id=OHR.Example_UHD.jpg"
    );
}

#[test]
fn cache_subdir_name() {
    assert_eq!(cache_subdir(), "BingWallpapers");
}

#[test]
fn cache_dir_under_base() {
    assert_eq!(cache_dir_path("/home/u/Pictures"), "/home/u/Pictures/BingWallpapers");
}

#[test]
fn fetch_plan_downloads_when_absent() {
    let p = ensure_today_image_plan("/cache", "2023-10-27", "https://example.org/a.jpg", false);
    assert_eq!(p.target, "/cache/bing_2023-10-27.jpg");
    assert_eq!(p.download.as_deref(), Some("https://example.org/a.jpg"));
}

#[test]
fn fetch_plan_idempotent_when_present() {
    let first = ensure_today_image_plan("/cache", "2023-10-27", "https://example.org/a.jpg", false);
    let second = ensure_today_image_plan("/cache", "2023-10-27", "https://example.org/a.jpg", true);
    assert_eq!(second.download, None);
    assert_eq!(first.target, second.target);
}

#[test]
fn first_urlbase_of_empty_metadata() {
    let none: Vec<String> = Vec::new();
    assert_eq!(first_image_urlbase(&none), Err(RunError::NoImageData));
}

#[test]
fn first_urlbase_of_two_descriptors() {
    let two = vec![String::from("/th?id=A"), String::from("/th?id=B")];
    assert_eq!(first_image_urlbase(&two), Ok(&two[0]));
}

#[test]
fn empty_metadata_fails_with_no_image_data() {
    let none: Vec<String> = Vec::new();
    assert_eq!(image_url_from_metadata(&none), Err(RunError::NoImageData));
}

#[test]
fn metadata_with_descriptor_gives_image_url() {
    let one = vec![String::from("/th?id=OHR.Example")];
    assert_eq!(
        image_url_from_metadata(&one),
        Ok(String::from("https://www.bing.com/th?id=OHR.Example_UHD.jpg"))
    );
}

#[test]
fn resolve_prefers_picture_dir() {
    let r = resolve_base_dir(Some(String::from("/home/u/Pictures")), Some(String::from("/home/u")));
    assert_eq!(r, Ok(String::from("/home/u/Pictures")));
}

#[test]
fn resolve_falls_back_to_home_dir() {
    let r = resolve_base_dir(None, Some(String::from("/home/u")));
    assert_eq!(r, Ok(String::from("/home/u")));
}

#[test]
fn resolve_fails_without_any_dir() {
    assert_eq!(resolve_base_dir(None, None), Err(RunError::DirectoryUnavailable));
}

#[test]
fn retention_count_is_seven() {
    assert_eq!(RETENTION_COUNT, 7);
}

#[test]
fn prune_keeps_the_seven_newest_of_ten() {
    // Ten files with distinct modification times, listed out of order.
    let entries = vec![
        entry(0, Some(50)),
        entry(1, Some(10)),
        entry(2, Some(90)),
        entry(3, Some(30)),
        entry(4, Some(70)),
        entry(5, Some(20)),
        entry(6, Some(100)),
        entry(7, Some(60)),
        entry(8, Some(40)),
        entry(9, Some(80)),
    ];
    let plan = plan_prune(entries, 7);
    // Exactly the seven most recently modified remain, newest first ...
    assert_eq!(ids(&plan.keep), vec![6, 2, 9, 4, 7, 0, 8]);
    // ... and the three oldest are gone.
    assert_eq!(ids(&plan.delete), vec![3, 5, 1]);
}

#[test]
fn prune_with_room_to_spare_deletes_nothing() {
    let entries = vec![
        entry(0, Some(5)),
        entry(1, Some(4)),
        entry(2, Some(3)),
        entry(3, Some(2)),
        entry(4, Some(1)),
    ];
    let plan = plan_prune(entries, 7);
    assert_eq!(plan.keep.len(), 5);
    assert!(plan.delete.is_empty());
}

#[test]
fn prune_keep_count_zero_deletes_everything() {
    let entries = vec![entry(0, Some(5)), entry(1, Some(9)), entry(2, Some(1))];
    let plan = plan_prune(entries, 0);
    assert!(plan.keep.is_empty());
    let mut deleted = ids(&plan.delete);
    deleted.sort();
    assert_eq!(deleted, vec![0, 1, 2]);
}

#[test]
fn prune_treats_unreadable_time_as_oldest() {
    let entries = vec![
        entry(0, Some(10)),
        entry(1, None),
        entry(2, Some(20)),
        entry(3, Some(1)),
    ];
    let plan = plan_prune(entries, 2);
    // Pruning completes and deletes the correct count; the file whose
    // metadata could not be read ranks oldest and is among the deleted.
    assert_eq!(ids(&plan.keep), vec![2, 0]);
    assert_eq!(ids(&plan.delete), vec![3, 1]);
}

#[test]
fn prune_of_empty_directory() {
    let plan = plan_prune(Vec::new(), 7);
    assert!(plan.keep.is_empty());
    assert!(plan.delete.is_empty());
}

#[test]
fn prune_with_tied_times_keeps_the_count() {
    let entries = vec![
        entry(0, Some(5)),
        entry(1, Some(5)),
        entry(2, Some(5)),
        entry(3, Some(9)),
    ];
    let plan = plan_prune(entries, 2);
    assert_eq!(plan.keep.len(), 2);
    assert_eq!(plan.delete.len(), 2);
    // The strictly newest file is always kept.
    assert_eq!(plan.keep[0].id, 3);
}

#[test]
fn error_messages() {
    assert_eq!(
        RunError::DirectoryUnavailable.message(),
        "no user picture or home directory found"
    );
    assert_eq!(
        RunError::DirectoryCreateFailed.message(),
        "could not create the wallpaper directory"
    );
    assert_eq!(
        RunError::MetadataFetchFailed.message(),
        "could not fetch the image metadata"
    );
    assert_eq!(RunError::NoImageData.message(), "no image data in the metadata response");
    assert_eq!(RunError::DownloadFailed.message(), "could not download the image");
    assert_eq!(RunError::WriteFailed.message(), "could not write the image file");
    assert_eq!(RunError::PathEncodingFailed.message(), "could not encode the image path");
    assert_eq!(RunError::WallpaperSetFailed.message(), "could not set the wallpaper");
}
