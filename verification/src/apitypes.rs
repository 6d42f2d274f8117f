//! Catalog API response shapes.
//!
//! Plain structures for the JSON the catalog service returns; the
//! surrounding binary deserializes into its own copies and converts.
//! Scores arrive in hundredths so that every field is an integer or string.

use vstd::prelude::*;

verus! {

/// Generic pagination wrapper.
#[derive(Debug)]
pub struct PaginatedResponse<T> {
    pub data: Vec<T>,
    pub pagination: Pagination,
}

/// Simple data wrapper, without pagination.
#[derive(Debug)]
pub struct DataResponse<T> {
    pub data: Vec<T>,
}

/// Pagination metadata.
#[derive(Debug, Clone, Copy, PartialEq, Eq, Structural)]
pub struct Pagination {
    pub last_visible_page: u32,
    pub has_next_page: bool,
    pub current_page: u32,
    pub items: Option<PaginationItems>,
}

#[derive(Debug, Clone, Copy, PartialEq, Eq, Structural)]
pub struct PaginationItems {
    pub count: u32,
    pub total: u32,
    pub per_page: u32,
}

/// Genre, theme or demographic listing entry.
#[derive(Debug)]
pub struct CategoryItem {
    pub mal_id: u32,
    pub name: String,
    pub url: String,
    pub count: u32,
}

/// Producer or studio listing entry.
#[derive(Debug)]
pub struct ProducerItem {
    pub mal_id: u32,
    pub titles: Vec<ProducerTitle>,
    pub url: String,
    pub count: u32,
}

#[derive(Debug)]
pub struct ProducerTitle {
    pub title_type: String,
    pub title: String,
}

/// Top anime listing.
#[derive(Debug)]
pub struct TopAnimeResponse {
    pub data: Vec<TopAnimeEntry>,
}

/// Top anime listing entry.
#[derive(Debug)]
pub struct TopAnimeEntry {
    pub mal_id: u32,
    pub url: String,
    pub images: AnimeImages,
    pub title: String,
    pub title_english: Option<String>,
    pub title_japanese: Option<String>,
    pub anime_type: Option<String>,
    pub episodes: Option<u32>,
    pub status: Option<String>,
    /// Score in hundredths.
    pub score_hundredths: Option<u32>,
    pub scored_by: Option<u32>,
    pub rank: Option<u32>,
    pub popularity: Option<u32>,
    pub members: Option<u32>,
    pub favorites: Option<u32>,
}

/// Full series details response.
#[derive(Debug)]
pub struct AnimeDetailsResponse {
    pub data: AnimeDetails,
}

/// Full series details.
#[derive(Debug)]
pub struct AnimeDetails {
    pub mal_id: u32,
    pub url: String,
    pub images: AnimeImages,
    pub title: String,
    pub title_english: Option<String>,
    pub title_japanese: Option<String>,
    pub title_synonyms: Vec<String>,
    pub anime_type: Option<String>,
    pub source: Option<String>,
    pub episodes: Option<u32>,
    pub status: Option<String>,
    pub airing: bool,
    pub aired: Aired,
    pub duration: Option<String>,
    pub rating: Option<String>,
    /// Score in hundredths.
    pub score_hundredths: Option<u32>,
    pub scored_by: Option<u32>,
    pub rank: Option<u32>,
    pub popularity: Option<u32>,
    pub members: Option<u32>,
    pub favorites: Option<u32>,
    pub synopsis: Option<String>,
    pub background: Option<String>,
    pub season: Option<String>,
    pub year: Option<u32>,
    pub broadcast: Option<Broadcast>,
    pub producers: Vec<MalEntity>,
    pub licensors: Vec<MalEntity>,
    pub studios: Vec<MalEntity>,
    pub genres: Vec<MalEntity>,
    pub explicit_genres: Vec<MalEntity>,
    pub themes: Vec<MalEntity>,
    pub demographics: Vec<MalEntity>,
}

/// Poster images of a series.
#[derive(Debug)]
pub struct AnimeImages {
    pub jpg: ImageSet,
    pub webp: Option<ImageSet>,
}

#[derive(Debug)]
pub struct ImageSet {
    pub image_url: Option<String>,
    pub small_image_url: Option<String>,
    pub large_image_url: Option<String>,
}

/// Air dates, as the catalog serializes them.
#[derive(Debug)]
pub struct Aired {
    pub from: Option<String>,
    pub to: Option<String>,
    pub prop: AiredProp,
}

#[derive(Debug)]
pub struct AiredProp {
    pub from: DateProp,
    pub to: DateProp,
}

#[derive(Debug, Clone, Copy, PartialEq, Eq, Structural)]
pub struct DateProp {
    pub day: Option<u32>,
    pub month: Option<u32>,
    pub year: Option<u32>,
}

/// Broadcast slot information.
#[derive(Debug)]
pub struct Broadcast {
    pub day: Option<String>,
    pub time: Option<String>,
    pub timezone: Option<String>,
    pub string: Option<String>,
}

/// A named catalog entity: a genre, studio or producer.
#[derive(Debug)]
pub struct MalEntity {
    pub mal_id: u32,
    pub entity_type: String,
    pub name: String,
    pub url: String,
}

/// An error response from the catalog service.
#[derive(Debug)]
pub struct JikanError {
    pub status: u16,
    pub message: String,
    pub error_type: String,
}

} // verus!
