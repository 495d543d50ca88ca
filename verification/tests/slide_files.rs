use presentations::slide_files::{merge_by_slide, pages_to_render};

fn named(items: &[(&str, u32)]) -> Vec<(String, u32)> {
    items.iter().map(|(n, s)| (n.to_string(), *s)).collect()
}

#[test]
fn pages_skip_the_slides_with_videos() {
    assert_eq!(pages_to_render(5, &vec![2, 4, 4]), vec![1, 3, 5]);
    assert_eq!(pages_to_render(3, &vec![]), vec![1, 2, 3]);
    assert_eq!(pages_to_render(0, &vec![1]), Vec::<u32>::new());
    assert_eq!(pages_to_render(2, &vec![7]), vec![1, 2]);
}

#[test]
fn videos_take_the_place_of_their_slides() {
    let pages = named(&[("deck_1.svg", 1), ("deck_3.svg", 3), ("deck_4.svg", 4)]);
    let videos = named(&[("deck-2__video_1.mp4", 2), ("deck-2__video_2.mkv", 2), ("deck-5_video_1.mov", 5)]);
    assert_eq!(
        merge_by_slide(&pages, &videos),
        named(&[
            ("deck_1.svg", 1),
            ("deck-2__video_1.mp4", 2),
            ("deck-2__video_2.mkv", 2),
            ("deck_3.svg", 3),
            ("deck_4.svg", 4),
            ("deck-5_video_1.mov", 5),
        ])
    );
}

#[test]
fn merge_is_stable_and_names_stay_once() {
    // a page and a video of the same slide: the page first, as entered
    let pages = named(&[("b.svg", 2), ("a.svg", 1)]);
    let videos = named(&[("v.mp4", 1), ("b.svg", 0)]);
    // "b.svg" is entered again with slide 0: it keeps its place, then sorts first
    assert_eq!(
        merge_by_slide(&pages, &videos),
        named(&[("b.svg", 0), ("a.svg", 1), ("v.mp4", 1)])
    );
    assert_eq!(merge_by_slide(&Vec::new(), &Vec::new()), Vec::<(String, u32)>::new());
}
