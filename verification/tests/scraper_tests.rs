use anime_pipeline::apitypes::Aired;
use anime_pipeline::apitypes::AiredProp;
use anime_pipeline::apitypes::AnimeDetails;
use anime_pipeline::apitypes::AnimeImages;
use anime_pipeline::apitypes::CategoryItem;
use anime_pipeline::apitypes::DateProp;
use anime_pipeline::apitypes::ImageSet;
use anime_pipeline::apitypes::MalEntity;
use anime_pipeline::apitypes::ProducerItem;
use anime_pipeline::apitypes::ProducerTitle;
use anime_pipeline::cache::CacheManager;
use anime_pipeline::discovery::CategoryType;
use anime_pipeline::discovery::anime_by_producer_endpoint;
use anime_pipeline::discovery::anime_details_endpoint;
use anime_pipeline::discovery::anime_from_details;
use anime_pipeline::discovery::demographics_endpoint;
use anime_pipeline::discovery::explicit_genres_endpoint;
use anime_pipeline::discovery::genres_endpoint;
use anime_pipeline::discovery::categories_from_items;
use anime_pipeline::discovery::merge_ids;
use anime_pipeline::discovery::more_producer_pages;
use anime_pipeline::discovery::more_top_pages;
use anime_pipeline::discovery::parse_leading_u32;
use anime_pipeline::discovery::producers_endpoint;
use anime_pipeline::discovery::studio_name;
use anime_pipeline::discovery::studios_from_items;
use anime_pipeline::discovery::themes_endpoint;
use anime_pipeline::discovery::top_anime_by_genre_endpoint;
use anime_pipeline::ratelimit::RateLimiter;
use anime_pipeline::scraper::ScraperStats;
use anime_pipeline::scraper::episode_jobs;
use anime_pipeline::stage::ProcessingStatus;

fn entity(name: &str) -> MalEntity {
    MalEntity {
        mal_id: 1,
        entity_type: "anime".to_string(),
        name: name.to_string(),
        url: String::new(),
    }
}

fn details(mal_id: u32, title: &str) -> AnimeDetails {
    AnimeDetails {
        mal_id,
        url: String::new(),
        images: AnimeImages {
            jpg: ImageSet { image_url: None, small_image_url: None, large_image_url: None },
            webp: None,
        },
        title: title.to_string(),
        title_english: Some("The Series".to_string()),
        title_japanese: None,
        title_synonyms: vec!["Alt".to_string()],
        anime_type: Some("TV".to_string()),
        source: Some("Manga".to_string()),
        episodes: Some(26),
        status: Some("Finished Airing".to_string()),
        airing: false,
        aired: Aired {
            from: Some("2006-01-02".to_string()),
            to: Some("2006-06-27".to_string()),
            prop: AiredProp {
                from: DateProp { day: Some(2), month: Some(1), year: Some(2006) },
                to: DateProp { day: Some(27), month: Some(6), year: Some(2006) },
            },
        },
        duration: Some("24 min per ep".to_string()),
        rating: Some("R".to_string()),
        score_hundredths: Some(875),
        scored_by: Some(100000),
        rank: Some(12),
        popularity: Some(34),
        members: Some(56),
        favorites: Some(78),
        synopsis: None,
        background: None,
        season: Some("winter".to_string()),
        year: Some(2006),
        broadcast: None,
        producers: Vec::new(),
        licensors: Vec::new(),
        studios: vec![entity("Madhouse")],
        genres: vec![entity("Action"), entity("Drama")],
        explicit_genres: Vec::new(),
        themes: vec![entity("Psychological")],
        demographics: vec![entity("Seinen")],
    }
}

#[test]
fn test_anime_from_details_conversion() {
    let anime = anime_from_details(&details(1535, "Death Note"), 1700000000);
    assert_eq!(anime.id, None);
    assert_eq!(anime.mal_id, 1535);
    assert_eq!(anime.title, "Death Note");
    assert_eq!(anime.episodes_total, Some(26));
    assert_eq!(anime.aired_from, Some((2006, 1, 2)));
    assert_eq!(anime.aired_to, Some((2006, 6, 27)));
    assert_eq!(anime.duration_minutes, Some(24));
    assert_eq!(anime.genres, vec!["Action".to_string(), "Drama".to_string()]);
    assert_eq!(anime.studios, vec!["Madhouse".to_string()]);
    assert_eq!(anime.score_hundredths, Some(875));
    assert_eq!(anime.year, Some(2006));
    assert_eq!(anime.episodes_processed, 0);
    assert_eq!(anime.processing_status, ProcessingStatus::Pending);
    assert_eq!(anime.fetched_at, 1700000000);
}

#[test]
fn test_air_date_parse_rejects_malformed_dates() {
    let mut d = details(1, "X");
    d.aired.from = Some("not a date".to_string());
    d.aired.to = None;
    let anime = anime_from_details(&d, 0);
    assert_eq!(anime.aired_from, None);
    assert_eq!(anime.aired_to, None);
}

#[test]
fn test_parse_leading_u32() {
    assert_eq!(parse_leading_u32("24 min per ep"), Some(24));
    assert_eq!(parse_leading_u32("  117 min"), Some(117));
    assert_eq!(parse_leading_u32("Unknown"), None);
    assert_eq!(parse_leading_u32(""), None);
    assert_eq!(parse_leading_u32("99999999999999999999 min"), None);
}

#[test]
fn test_episode_jobs_cover_every_episode() {
    let jobs = episode_jobs(7, 100, "Series", 3);
    assert_eq!(jobs.len(), 3);
    assert_eq!(jobs[0].episode, 1);
    assert_eq!(jobs[2].episode, 3);
    assert!(jobs.iter().all(|j| j.anime_id == 7 && j.mal_id == 100 && j.priority == 0));
    assert!(episode_jobs(7, 100, "Series", 0).is_empty());
}

#[test]
fn test_categories_filter_by_size() {
    let items = vec![
        CategoryItem { mal_id: 1, name: "Action".to_string(), url: String::new(), count: 120 },
        CategoryItem { mal_id: 2, name: "Niche".to_string(), url: String::new(), count: 3 },
        CategoryItem { mal_id: 3, name: "Drama".to_string(), url: String::new(), count: 50 },
    ];
    let cats = categories_from_items(&items, CategoryType::Genre, 50);
    assert_eq!(cats.len(), 2);
    assert_eq!(cats[0].name, "Action");
    assert_eq!(cats[1].name, "Drama");
    assert!(cats.iter().all(|c| c.category_type == CategoryType::Genre));
}

#[test]
fn test_studio_names() {
    let studio = ProducerItem {
        mal_id: 11,
        titles: vec![
            ProducerTitle { title_type: "Synonym".to_string(), title: "BONES Inc.".to_string() },
            ProducerTitle { title_type: "Default".to_string(), title: "Bones".to_string() },
        ],
        url: String::new(),
        count: 200,
    };
    assert_eq!(studio_name(&studio), "Bones");

    let unnamed = ProducerItem { mal_id: 99, titles: Vec::new(), url: String::new(), count: 60 };
    assert_eq!(studio_name(&unnamed), "Studio 99");

    let cats = studios_from_items(&vec![studio, unnamed], 100);
    assert_eq!(cats.len(), 1);
    assert_eq!(cats[0].name, "Bones");
    assert_eq!(cats[0].category_type, CategoryType::Studio);
}

#[test]
fn test_catalog_endpoints() {
    assert_eq!(genres_endpoint(), "/genres/anime");
    assert_eq!(explicit_genres_endpoint(), "/genres/anime?filter=explicit_genres");
    assert_eq!(themes_endpoint(), "/genres/anime?filter=themes");
    assert_eq!(demographics_endpoint(), "/genres/anime?filter=demographics");
    assert_eq!(producers_endpoint(3), "/producers?page=3");
    assert_eq!(
        top_anime_by_genre_endpoint(4, 2),
        "/top/anime?filter=bypopularity&genre=4&page=2"
    );
    assert_eq!(
        anime_by_producer_endpoint(11, 2),
        "/anime?producer=11&page=2&order_by=members&sort=desc"
    );
    assert_eq!(anime_details_endpoint(5114), "/anime/5114");
}

#[test]
fn test_page_limits() {
    assert!(more_producer_pages(1, true));
    assert!(!more_producer_pages(1, false));
    assert!(!more_producer_pages(10, true));
    assert!(more_top_pages(9, true));
    assert!(!more_top_pages(10, true));
    assert!(!more_top_pages(2, false));
}

#[test]
fn test_merge_ids_dedupes() {
    let mut acc: Vec<u32> = vec![1, 2];
    merge_ids(&mut acc, &vec![2, 3, 1, 4, 3]);
    assert_eq!(acc, vec![1, 2, 3, 4]);
}

#[test]
fn test_scraper_stats_default() {
    let stats = ScraperStats::default();
    assert_eq!(stats.total_categories, 0);
    assert_eq!(stats.jobs_created, 0);
    assert_eq!(stats.errors, 0);
}

#[test]
fn test_cache_path_sanitizes_keys() {
    let cache = CacheManager::new("/data/cache/mal_cache", true);
    assert!(cache.enabled());
    assert_eq!(cache.cache_path("genres"), "/data/cache/mal_cache/genres.json");
    assert_eq!(cache.cache_path("anime/5114"), "/data/cache/mal_cache/anime_5114.json");
    assert_eq!(cache.cache_path("a::b"), "/data/cache/mal_cache/a_b.json");
}

#[test]
fn test_cache_entry_exists_needs_enabled_cache() {
    let enabled = CacheManager::new("/data/cache", true);
    assert!(enabled.entry_exists(true));
    assert!(!enabled.entry_exists(false));
    let disabled = CacheManager::new("/data/cache", false);
    assert!(!disabled.entry_exists(true));
}

#[test]
fn test_current_minute_count() {
    let mut limiter = RateLimiter::new(2000, 50);
    assert_eq!(limiter.current_minute_count(0), 0);
}

#[test]
fn test_rate_limiter_waits() {
    let mut limiter = RateLimiter::new(2000, 50);
    // First request goes out immediately; the second must respect the
    // 500 ms gap of two requests per second.
    assert_eq!(limiter.acquire_wait(10_000), 0);
    assert_eq!(limiter.acquire_wait(10_000), 500);
    assert_eq!(limiter.acquire_wait(11_000), 0);
}

#[test]
fn test_rate_limiter_minute_window() {
    let mut limiter = RateLimiter::new(1_000_000, 3);
    assert_eq!(limiter.acquire_wait(0), 0);
    assert_eq!(limiter.acquire_wait(10), 0);
    assert_eq!(limiter.acquire_wait(20), 0);
    // The window is full: the fourth request waits until the first ages out.
    let wait = limiter.acquire_wait(30);
    assert_eq!(wait, 60_000 - 30);
    assert_eq!(limiter.current_minute_count(30), 4);
    assert_eq!(limiter.current_minute_count(70_000), 1);
}
