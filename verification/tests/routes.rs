use book_counter::route::{switch, Page, Route};

#[test]
fn home_shows_the_counter() {
    assert_eq!(switch(&Route::Home), Page::Counter);
}

#[test]
fn not_found_shows_the_404_heading() {
    assert_eq!(switch(&Route::NotFound), Page::Heading(String::from("404")));
}

#[test]
fn posts_and_authors_show_nothing() {
    assert_eq!(switch(&Route::Posts), Page::Empty);
    assert_eq!(switch(&Route::Authors), Page::Empty);
    for id in [0, 1, 42, u64::MAX] {
        assert_eq!(switch(&Route::Post { id }), Page::Empty);
        assert_eq!(switch(&Route::Author { id }), Page::Empty);
    }
}

#[test]
fn routes_compare_by_variant_and_id() {
    assert_eq!(Route::Post { id: 3 }, Route::Post { id: 3 });
    assert_ne!(Route::Post { id: 3 }, Route::Post { id: 4 });
    assert_ne!(Route::Post { id: 3 }, Route::Author { id: 3 });
    assert_ne!(Route::Home, Route::NotFound);
}
