use headlines::{
    check_payload, check_response, decimal_text, error_line, finish, headlines_url,
    link_text, render_top_headlines, request_target, source_text, title_text, Article, Articles,
    FetchError, Source, NEWS_API_BASE,
};

/// The text of a line as a reader sees it: escape codes of the form `ESC [ ... m` left out.
fn plain(line: &str) -> String {
    let mut out = String::new();
    let mut chars = line.chars();
    while let Some(c) = chars.next() {
        if c == '\x1b' {
            for d in chars.by_ref() {
                if d == 'm' {
                    break;
                }
            }
        } else {
            out.push(c);
        }
    }
    out
}

fn article(title: &str, url: &str, source: &str) -> Article {
    Article::new(title.to_string(), url.to_string(), Source::new(source.to_string()))
}

#[test]
fn one_article_gives_three_lines_and_a_blank() {
    let list = Articles::new(vec![article("A", "http://x", "S")]);
    let lines = render_top_headlines(&list);
    assert_eq!(lines.len(), 4);
    assert!(lines[0].contains('S'));
    assert!(lines[1].contains('A'));
    assert!(lines[2].contains("http://x"));
    assert_eq!(plain(&lines[0]), "> source: S");
    assert_eq!(plain(&lines[1]), "> A");
    assert_eq!(plain(&lines[2]), "> http://x ");
    assert_eq!(lines[3], "");
}

#[test]
fn empty_list_gives_no_lines() {
    let list = Articles::new(Vec::new());
    assert_eq!(list.len(), 0);
    assert!(render_top_headlines(&list).is_empty());
    let t = finish(Ok(Articles::new(Vec::new())));
    assert!(t.out.is_empty());
    assert!(t.err.is_empty());
}

#[test]
fn headlines_keep_their_order() {
    let list = Articles::new(vec![
        article("First", "http://one", "Alpha"),
        article("Second", "http://two", "Beta"),
        article("Third", "http://three", "Gamma"),
    ]);
    let lines = render_top_headlines(&list);
    assert_eq!(lines.len(), 12);
    let seen: Vec<String> = lines.iter().map(|l| plain(l)).collect();
    assert_eq!(
        seen,
        vec![
            "> source: Alpha", "> First", "> http://one ", "",
            "> source: Beta", "> Second", "> http://two ", "",
            "> source: Gamma", "> Third", "> http://three ", "",
        ]
    );
    for (k, line) in lines.iter().enumerate() {
        assert_eq!(line.is_empty(), k % 4 == 3);
    }
}

#[test]
fn empty_fields_still_give_non_empty_lines() {
    let list = Articles::new(vec![article("", "", "")]);
    let lines = render_top_headlines(&list);
    assert_eq!(plain(&lines[0]), "> source: ");
    assert_eq!(plain(&lines[1]), "> ");
    assert_eq!(plain(&lines[2]), ">  ");
    assert_eq!(lines[3], "");
}

#[test]
fn colours_when_switched_on() {
    colored::control::set_override(true);
    assert_eq!(source_text("S"), "\x1b[32m> source:\x1b[0m \x1b[1;31mS\x1b[0m");
    assert_eq!(title_text("A"), "> \x1b[33mA\x1b[0m");
    assert_eq!(link_text("http://x"), "> \x1b[34mhttp://x\x1b[0m ");
    assert_eq!(error_line(&FetchError::MissingKey), "\x1b[31mError:\x1b[0m NEWS_API_KEY is required.");
}

#[test]
fn missing_key_sends_nothing() {
    assert_eq!(request_target(NEWS_API_BASE, None), Err(FetchError::MissingKey));
    assert_eq!(request_target(NEWS_API_BASE, Some(String::new())), Err(FetchError::MissingKey));
    let t = finish(Err(FetchError::MissingKey));
    assert!(t.out.is_empty());
    assert_eq!(t.err.len(), 1);
    assert_eq!(plain(&t.err[0]), "Error: NEWS_API_KEY is required.");
}

#[test]
fn key_goes_into_the_address() {
    assert_eq!(
        request_target(NEWS_API_BASE, Some("k3y".to_string())),
        Ok("https://newsapi.org/v2/top-headlines?country=us&apiKey=k3y".to_string())
    );
    assert_eq!(
        headlines_url("http://localhost:8080", "abc"),
        "http://localhost:8080/v2/top-headlines?country=us&apiKey=abc"
    );
}

#[test]
fn status_200_lets_the_body_be_read() {
    assert_eq!(check_response(Ok(200)), Ok(()));
}

#[test]
fn status_404_is_reported_with_its_number() {
    let e = check_response(Ok(404)).unwrap_err();
    assert_eq!(e, FetchError::Status(404));
    assert!(e.message().contains("404"));
    assert_eq!(e.message(), "Unexpected response status: 404 Not Found");
    let t = finish(Err(e));
    assert!(t.out.is_empty());
    assert_eq!(plain(&t.err[0]), "Error: Unexpected response status: 404 Not Found");
}

#[test]
fn status_500_is_reported_with_its_number() {
    let e = check_response(Ok(500)).unwrap_err();
    assert_eq!(e, FetchError::Status(500));
    assert_eq!(e.message(), "Unexpected response status: 500 Internal Server Error");
    let t = finish(Err(e));
    assert!(t.out.is_empty());
    assert_eq!(t.err.len(), 1);
    assert!(t.err[0].contains("500"));
}

#[test]
fn unregistered_status_has_no_reason_phrase() {
    assert_eq!(
        FetchError::Status(799).message(),
        "Unexpected response status: 799 <unknown status code>"
    );
    assert_eq!(
        FetchError::Status(42).message(),
        "Unexpected response status: 42 <unknown status code>"
    );
}

#[test]
fn malformed_body_is_a_parse_error() {
    let cause = "missing field `articles` at line 1 column 2".to_string();
    let e = check_payload(Err(cause.clone())).unwrap_err();
    assert_eq!(e, FetchError::Parse(cause));
    assert_eq!(
        e.message(),
        "Failed to parse JSON response: missing field `articles` at line 1 column 2"
    );
    let t = finish(Err(e));
    assert!(t.out.is_empty());
    assert_eq!(t.err.len(), 1);
}

#[test]
fn decoded_body_is_kept() {
    let list = check_payload(Ok(Articles::new(vec![article("A", "http://x", "S")]))).unwrap();
    assert_eq!(list.len(), 1);
    assert_eq!(list.articles[0].title, "A");
    let t = finish(Ok(list));
    assert!(t.err.is_empty());
    assert_eq!(t.out.len(), 4);
}

#[test]
fn transport_failure_is_reported() {
    let e = check_response(Err("error sending request: connection refused".to_string())).unwrap_err();
    assert_eq!(e, FetchError::Transport("error sending request: connection refused".to_string()));
    assert_eq!(
        e.message(),
        "Failed to send request: error sending request: connection refused"
    );
    let t = finish(Err(e));
    assert!(t.out.is_empty());
    assert_eq!(
        plain(&t.err[0]),
        "Error: Failed to send request: error sending request: connection refused"
    );
}

#[test]
fn decimal_digits() {
    assert_eq!(decimal_text(0), "0");
    assert_eq!(decimal_text(7), "7");
    assert_eq!(decimal_text(404), "404");
    assert_eq!(decimal_text(65535), "65535");
}
