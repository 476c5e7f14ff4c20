use parakeet_bot::track_queue::{Queue, Track};

fn track(title: &str, url: &str) -> Track {
    Track { title: Some(title.to_string()), url: Some(url.to_string()) }
}

#[test]
fn a_track_is_a_link() {
    assert_eq!(track("Song A", "https://a").render(), "[Song A](https://a')");
    let mut buf = String::from("> ");
    track("Song A", "https://a").push_text(&mut buf);
    assert_eq!(buf, "> [Song A](https://a')");
}

#[test]
fn a_queue_is_a_numbered_list() {
    assert_eq!(Queue(vec![]).render(), "");
    let queue = Queue(vec![track("Song A", "https://a"), track("Song B", "https://b")]);
    assert_eq!(queue.render(), "`1.` [Song A](https://a')\n`2.` [Song B](https://b')\n");
}

#[test]
fn a_long_queue_counts_on() {
    let queue = Queue(vec![track("x", "u"); 12]);
    let text = queue.render();
    assert_eq!(text.lines().count(), 12);
    assert!(text.ends_with("`11.` [x](u')\n`12.` [x](u')\n"));
}
