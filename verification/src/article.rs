//! What the news service answers: articles, and the envelope they come in.

use vstd::prelude::*;

verus! {

/// A news article as the service lists it: a title and the address of its page.
#[derive(Clone, Debug, PartialEq, Eq)]
pub struct Article {
    pub title: String,
    pub url: String,
}

/// An article as plain text values.
pub struct ArticleView {
    pub title: Seq<char>,
    pub url: Seq<char>,
}

impl View for Article {
    type V = ArticleView;

    open spec fn view(&self) -> ArticleView {
        ArticleView { title: self.title@, url: self.url@ }
    }
}

impl DeepView for Article {
    type V = ArticleView;

    open spec fn deep_view(&self) -> ArticleView {
        self@
    }
}

impl Article {
    /// An article with the given title and page address.
    pub fn new(title: String, url: String) -> (article: Article)
        ensures
            article.title == title,
            article.url == url,
    {
        Article { title, url }
    }
}

/// The envelope of one answer of the service. The status and the announced
/// total are carried along as received; nothing holds them to the list.
#[derive(Clone, Debug, PartialEq, Eq)]
pub struct ApiResponse {
    pub status: String,
    pub total_results: usize,
    pub articles: Vec<Article>,
}

impl ApiResponse {
    /// The articles of the answer, in the order in which the service gave
    /// them, whatever the status and the announced total say.
    pub fn into_articles(self) -> (articles: Vec<Article>)
        ensures
            articles == self.articles,
    {
        self.articles
    }
}

} // verus!
