use vstd::prelude::*;

verus! {

/// The publisher of an article.
#[derive(Debug)]
pub struct Source {
    pub name: String,
}

/// One headline: its title, its link and its publisher.
#[derive(Debug)]
pub struct Article {
    pub title: String,
    pub url: String,
    pub source: Source,
}

/// The articles of one response, in the order the service gave them.
#[derive(Debug)]
pub struct Articles {
    pub articles: Vec<Article>,
}

/// What a reader of an article sees: three pieces of text.
pub struct HeadlineView {
    pub title: Seq<char>,
    pub url: Seq<char>,
    pub source: Seq<char>,
}

impl View for Source {
    type V = Seq<char>;

    open spec fn view(&self) -> Seq<char> {
        self.name@
    }
}

impl View for Article {
    type V = HeadlineView;

    open spec fn view(&self) -> HeadlineView {
        HeadlineView { title: self.title@, url: self.url@, source: self.source@ }
    }
}

impl View for Articles {
    type V = Seq<HeadlineView>;

    open spec fn view(&self) -> Seq<HeadlineView> {
        self.articles@.map_values(|a: Article| a@)
    }
}

impl Source {
    pub fn new(name: String) -> (r: Source)
        ensures
            r@ == name@,
    {
        Source { name }
    }
}

impl Article {
    pub fn new(title: String, url: String, source: Source) -> (r: Article)
        ensures
            r@ == (HeadlineView { title: title@, url: url@, source: source@ }),
    {
        Article { title, url, source }
    }
}

impl Articles {
    pub fn new(articles: Vec<Article>) -> (r: Articles)
        ensures
            r.articles@ == articles@,
            r@ == articles@.map_values(|a: Article| a@),
    {
        Articles { articles }
    }

    /// The number of articles.
    pub fn len(&self) -> (r: usize)
        ensures
            r == self@.len(),
    {
        self.articles.len()
    }
}

} // verus!
