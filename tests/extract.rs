use food_scraper::extract::{
    description_from_segments, get_recipe_description, get_recipe_image, get_recipe_ingredients,
    get_recipe_steps, get_recipe_title, items_from_segments, select_elements, selector_is_valid,
};
use scraper::Html;

fn page() -> Html {
    Html::parse_document(
        "<html><body>\
         <h1 class=\"text-center\">Tomato <em>Soup</em></h1>\
         <div class=\"intro\">  A warm\n <b>soup</b>  </div>\
         <div class=\"detail-ingr-block\"><span>200g tomato</span>\n\n<span>1 onion</span>\n</div>\
         <ol class=\"steps\"><li> Chop </li><li>Cook</li><li>Chop</li></ol>\
         <img class=\"recipe-image\" src=\"/img/soup.jpg\">\
         <img class=\"no-src\">\
         </body></html>",
    )
}

fn strings(v: &[&str]) -> Vec<String> {
    v.iter().map(|s| s.to_string()).collect()
}

#[test]
fn title_keeps_inner_markup() {
    assert_eq!(get_recipe_title(&page(), "h1.text-center"), Some("Tomato <em>Soup</em>".to_string()));
}

#[test]
fn description_joins_and_trims() {
    assert_eq!(get_recipe_description(&page(), ".intro"), Some("A warm\n  soup".to_string()));
}

#[test]
fn ingredients_drop_empty_segments() {
    assert_eq!(
        get_recipe_ingredients(&page(), ".detail-ingr-block"),
        Some(strings(&["200g tomato", "1 onion"]))
    );
}

#[test]
fn steps_keep_order_and_repeats() {
    assert_eq!(get_recipe_steps(&page(), ".steps"), Some(strings(&["Chop", "Cook", "Chop"])));
}

#[test]
fn item_extraction_is_repeatable() {
    let doc = page();
    let a = get_recipe_ingredients(&doc, ".detail-ingr-block");
    let b = get_recipe_ingredients(&doc, ".detail-ingr-block");
    assert_eq!(a, b);
    let again = items_from_segments(a.as_ref().unwrap());
    assert_eq!(Some(again), a);
}

#[test]
fn image_reads_src_attribute() {
    assert_eq!(get_recipe_image(&page(), ".recipe-image"), Some("/img/soup.jpg".to_string()));
}

#[test]
fn image_without_src_is_absent() {
    assert_eq!(get_recipe_image(&page(), ".no-src"), None);
}

#[test]
fn empty_selector_gives_absent_fields() {
    let doc = page();
    assert_eq!(get_recipe_title(&doc, ""), None);
    assert_eq!(get_recipe_description(&doc, ""), None);
    assert_eq!(get_recipe_ingredients(&doc, ""), None);
    assert_eq!(get_recipe_steps(&doc, ""), None);
    assert_eq!(get_recipe_image(&doc, ""), None);
}

#[test]
fn malformed_selector_gives_absent_fields() {
    let doc = page();
    assert_eq!(get_recipe_title(&doc, "h1[["), None);
    assert_eq!(get_recipe_description(&doc, ">>"), None);
    assert_eq!(get_recipe_ingredients(&doc, "::"), None);
    assert_eq!(get_recipe_steps(&doc, "ol["), None);
    assert_eq!(get_recipe_image(&doc, "img("), None);
}

#[test]
fn unmatched_selector_gives_absent_fields() {
    let doc = page();
    assert_eq!(get_recipe_title(&doc, "h2.none"), None);
    assert_eq!(get_recipe_description(&doc, ".none"), None);
    assert_eq!(get_recipe_ingredients(&doc, ".none"), None);
    assert_eq!(get_recipe_steps(&doc, ".none"), None);
    assert_eq!(get_recipe_image(&doc, ".none"), None);
}

#[test]
fn select_elements_takes_first_match() {
    let doc = Html::parse_document("<p>one</p><p>two</p>");
    let e = select_elements(&doc, "p").unwrap();
    assert_eq!(e.inner_html(), "one");
    assert!(select_elements(&doc, "").is_none());
}

#[test]
fn description_from_segments_exact() {
    assert_eq!(description_from_segments(&strings(&["  a", "b ", "\t"])), "a b");
    assert_eq!(description_from_segments(&strings(&[])), "");
}

#[test]
fn items_from_segments_exact() {
    assert_eq!(
        items_from_segments(&strings(&["200g tomato", "\n\n", "1 onion", "\n"])),
        strings(&["200g tomato", "1 onion"])
    );
    assert_eq!(items_from_segments(&strings(&["\u{a0}x\u{3000}", " "])), strings(&["x"]));
}

#[test]
fn whitespace_only_match_gives_empty_list() {
    let doc = Html::parse_document("<div class='i'> \n </div>");
    assert_eq!(get_recipe_ingredients(&doc, ".i"), Some(vec![]));
    assert_eq!(get_recipe_description(&doc, ".i"), Some(String::new()));
}

#[test]
fn ingredients_keep_duplicates() {
    let doc = Html::parse_document("<ul class='i'><li>salt</li><li>salt</li></ul>");
    assert_eq!(get_recipe_ingredients(&doc, ".i"), Some(strings(&["salt", "salt"])));
}

#[test]
fn steps_are_trimmed_segments() {
    let doc = Html::parse_document("<ol class='s'><li> Chop the onion. </li><li>Boil water.</li></ol>");
    assert_eq!(get_recipe_steps(&doc, ".s"), Some(strings(&["Chop the onion.", "Boil water."])));
}

#[test]
fn extraction_uses_first_match_only() {
    let doc = Html::parse_document("<p class='d'>first</p><p class='d'>second</p><img class='m' src='a.png'><img class='m' src='b.png'>");
    assert_eq!(get_recipe_title(&doc, ".d"), Some("first".to_string()));
    assert_eq!(get_recipe_description(&doc, ".d"), Some("first".to_string()));
    assert_eq!(get_recipe_image(&doc, ".m"), Some("a.png".to_string()));
}

#[test]
fn selector_validity_matches_absent_fields() {
    let doc = page();
    assert!(selector_is_valid("h1.text-center"));
    assert!(selector_is_valid(".none"));
    assert!(!selector_is_valid(""));
    assert!(!selector_is_valid("h1[["));
    assert!(!selector_is_valid("img("));
    assert_eq!(get_recipe_title(&doc, "h1[["), None);
    assert_eq!(get_recipe_image(&doc, "img("), None);
}
