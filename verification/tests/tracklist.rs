use guild_queue::tracklist::{
    decimal_text, format_song, get_tracklist, render_queue, sort_lines, texts_of, Line, Metadata,
};

fn line(index: usize, text: &str) -> Line {
    Line { index, text: String::from(text) }
}

#[test]
fn format_song_quotes_artist_and_title() {
    let m = Metadata {
        title: Some(String::from("Song")),
        artist: Some(String::from("Band")),
        duration: None,
    };
    assert_eq!(format_song(&m), "'Band - Song'");
}

#[test]
fn format_song_fills_in_unknown() {
    let none = Metadata { title: None, artist: None, duration: None };
    assert_eq!(format_song(&none), "'UNKNOWN - UNKNOWN'");
    let title = Metadata { title: Some(String::from("Song")), artist: None, duration: None };
    assert_eq!(format_song(&title), "'UNKNOWN - Song'");
    let artist = Metadata { title: None, artist: Some(String::from("Band")), duration: None };
    assert_eq!(format_song(&artist), "'Band - UNKNOWN'");
}

#[test]
fn tracklist_comes_out_in_queue_order() {
    let results = vec![line(2, "c"), line(0, "a"), line(3, "d"), line(1, "b")];
    assert_eq!(get_tracklist(results), vec!["a", "b", "c", "d"]);
    assert_eq!(get_tracklist(Vec::new()), Vec::<String>::new());
}

#[test]
fn sort_lines_orders_by_index_and_keeps_every_line() {
    let sorted = sort_lines(vec![line(5, "x"), line(1, "y"), line(5, "z"), line(0, "w")]);
    let indices: Vec<usize> = sorted.iter().map(|l| l.index).collect();
    assert_eq!(indices, vec![0, 1, 5, 5]);
    let mut texts: Vec<String> = sorted.iter().map(|l| l.text.clone()).collect();
    texts.sort();
    assert_eq!(texts, vec!["w", "x", "y", "z"]);
}

#[test]
fn texts_of_keeps_order() {
    assert_eq!(texts_of(vec![line(9, "a"), line(1, "b"), line(4, "c")]), vec!["a", "b", "c"]);
}

#[test]
fn decimal_text_writes_numbers() {
    assert_eq!(decimal_text(0), "0");
    assert_eq!(decimal_text(7), "7");
    assert_eq!(decimal_text(10), "10");
    assert_eq!(decimal_text(1234567890), "1234567890");
    assert_eq!(decimal_text(u64::MAX), "18446744073709551615");
}

#[test]
fn render_queue_marks_current_track() {
    let lines = vec![String::from("'a - b'"), String::from("'c - d'"), String::from("'e - f'")];
    assert_eq!(render_queue(&lines, 1), "Queue\n```\n1: 'a - b'\n-> 'c - d'\n3: 'e - f'\n```");
    assert_eq!(render_queue(&lines, 7), "Queue\n```\n1: 'a - b'\n2: 'c - d'\n3: 'e - f'\n```");
    assert_eq!(render_queue(&Vec::new(), 0), "Queue\n```\n```");
}
