//! The help page: a list of articles read from a structured document,
//! an active article, and scroll state for long bodies.

use vstd::prelude::*;
use crate::doc::{DocValue, lookup_str};
use crate::keys::Key;

verus! {

/// The mathematical view of an article.
pub ghost struct ArticleModel {
    pub title: Seq<char>,
    pub menu_title: Seq<char>,
    pub body: Seq<char>,
}

/// One help article: a title, the shorter menu entry, and the body
/// text.
#[derive(Clone)]
pub struct Article {
    pub title: String,
    pub menu_title: String,
    pub body: String,
}

/// The body text that the entries of an article object accumulate:
/// every string of every `body` array, each followed by a blank line.
pub open spec fn spec_article_body(entries: Seq<(String, DocValue)>) -> Seq<char>
    decreases entries.len(),
{
    if entries.len() == 0 {
        Seq::empty()
    } else {
        spec_article_body(entries.drop_last()) + (if entries.last().0@ == "body"@
            && entries.last().1 is Array {
            spec_joined_body(entries.last().1->Array_0@)
        } else {
            Seq::empty()
        })
    }
}

/// The strings of one `body` array joined in order, each followed by a
/// blank line; nodes that are not strings are skipped.
pub open spec fn spec_joined_body(vals: Seq<DocValue>) -> Seq<char>
    decreases vals.len(),
{
    if vals.len() == 0 {
        Seq::empty()
    } else {
        spec_joined_body(vals.drop_last()) + (if vals.last() is Str {
            vals.last()->Str_0@ + "\n\n"@
        } else {
            Seq::empty()
        })
    }
}

/// The article an object describes: title and menu title are the last
/// string values under their keys, the body accumulates.
pub open spec fn spec_article_of(entries: Seq<(String, DocValue)>) -> ArticleModel {
    ArticleModel {
        title: match lookup_str(entries, "title"@) {
            Some(s) => s,
            None => Seq::empty(),
        },
        menu_title: match lookup_str(entries, "menuTitle"@) {
            Some(s) => s,
            None => Seq::empty(),
        },
        body: spec_article_body(entries),
    }
}

/// The articles a document describes: one per object element of the
/// root array, in order; a root that is not an array gives none.
pub open spec fn spec_articles_of(d: DocValue) -> Seq<ArticleModel>
    decreases d,
{
    match d {
        DocValue::Array(vals) => spec_article_seq(vals@),
        _ => Seq::empty(),
    }
}

/// The articles of the root array's elements.
pub open spec fn spec_article_seq(vals: Seq<DocValue>) -> Seq<ArticleModel>
    decreases vals.len(),
{
    if vals.len() == 0 {
        Seq::empty()
    } else {
        spec_article_seq(vals.drop_last()) + (match vals.last() {
            DocValue::Object(entries) => seq![spec_article_of(entries@)],
            _ => Seq::empty(),
        })
    }
}

impl Article {
    /// The mathematical view of this article.
    pub open spec fn model(&self) -> ArticleModel {
        ArticleModel { title: self.title@, menu_title: self.menu_title@, body: self.body@ }
    }

    /// Read one article from an object's entries.
    fn from_entries(entries: &Vec<(String, DocValue)>) -> (r: Article)
        ensures
            r.model() == spec_article_of(entries@),
    {
        let mut article = Article::default();
        match crate::doc::get_str(entries, "title") {
            Some(s) => {
                article.title = s.clone();
            },
            None => {},
        }
        match crate::doc::get_str(entries, "menuTitle") {
            Some(s) => {
                article.menu_title = s.clone();
            },
            None => {},
        }
        let n = entries.len();
        let mut i: usize = 0;
        proof {
            assert(entries@.take(0) =~= Seq::<(String, DocValue)>::empty());
            assert(article.body@ =~= spec_article_body(entries@.take(0)));
        }
        while i < n
            invariant
                i <= n,
                n == entries@.len(),
                article.title@ == spec_article_of(entries@).title,
                article.menu_title@ == spec_article_of(entries@).menu_title,
                article.body@ == spec_article_body(entries@.take(i as int)),
            decreases n - i,
        {
            proof {
                assert(entries@.take(i as int + 1).last() == entries@[i as int]);
                assert(entries@.take(i as int + 1).drop_last() =~= entries@.take(i as int));
            }
            if crate::strutil::str_eq(entries[i].0.as_str(), "body") {
                match &entries[i].1 {
                    DocValue::Array(vals) => {
                        let m = vals.len();
                        let mut j: usize = 0;
                        proof {
                            assert(vals@.take(0) =~= Seq::<DocValue>::empty());
                            assert(article.body@ =~= spec_article_body(entries@.take(i as int))
                                + spec_joined_body(vals@.take(0)));
                        }
                        while j < m
                            invariant
                                j <= m,
                                m == vals@.len(),
                                article.title@ == spec_article_of(entries@).title,
                                article.menu_title@ == spec_article_of(entries@).menu_title,
                                article.body@ == spec_article_body(entries@.take(i as int))
                                    + spec_joined_body(vals@.take(j as int)),
                            decreases m - j,
                        {
                            proof {
                                assert(vals@.take(j as int + 1).last() == vals@[j as int]);
                                assert(vals@.take(j as int + 1).drop_last() =~= vals@.take(
                                    j as int,
                                ));
                            }
                            match &vals[j] {
                                DocValue::Str(s) => {
                                    article.body.append(s.as_str());
                                    article.body.append("\n\n");
                                },
                                _ => {},
                            }
                            proof {
                                assert(article.body@ =~= spec_article_body(
                                    entries@.take(i as int),
                                ) + spec_joined_body(vals@.take(j as int + 1)));
                            }
                            j = j + 1;
                        }
                        proof {
                            assert(vals@.take(m as int) =~= vals@);
                        }
                    },
                    _ => {},
                }
            }
            proof {
                assert(article.body@ =~= spec_article_body(entries@.take(i as int + 1)));
            }
            i = i + 1;
        }
        proof {
            assert(entries@.take(n as int) =~= entries@);
        }
        article
    }

    /// Read the help articles out of a document: one article per
    /// object element of the root array; any other root gives no
    /// articles.
    pub fn create_vec_from_doc(d: &DocValue) -> (r: Vec<Article>)
        ensures
            r@.map_values(|a: Article| a.model()) == spec_articles_of(*d),
    {
        let mut ret: Vec<Article> = Vec::new();
        match d {
            DocValue::Array(vals) => {
                let n = vals.len();
                let mut i: usize = 0;
                proof {
                    assert(vals@.take(0) =~= Seq::<DocValue>::empty());
                    assert(ret@.map_values(|a: Article| a.model()) =~= spec_article_seq(
                        vals@.take(0),
                    ));
                }
                while i < n
                    invariant
                        i <= n,
                        n == vals@.len(),
                        ret@.map_values(|a: Article| a.model()) == spec_article_seq(
                            vals@.take(i as int),
                        ),
                    decreases n - i,
                {
                    proof {
                        assert(vals@.take(i as int + 1).last() == vals@[i as int]);
                        assert(vals@.take(i as int + 1).drop_last() =~= vals@.take(i as int));
                    }
                    let ghost before = ret@;
                    match &vals[i] {
                        DocValue::Object(entries) => {
                            let article = Article::from_entries(entries);
                            ret.push(article);
                            proof {
                                assert(ret@.map_values(|a: Article| a.model())
                                    =~= before.map_values(|a: Article| a.model()).push(
                                    ret@.last().model(),
                                ));
                                assert(ret@.map_values(|a: Article| a.model())
                                    =~= spec_article_seq(vals@.take(i as int + 1)));
                            }
                        },
                        _ => {
                            proof {
                                assert(spec_article_seq(vals@.take(i as int + 1))
                                    =~= spec_article_seq(vals@.take(i as int)));
                            }
                        },
                    }
                    i = i + 1;
                }
                proof {
                    assert(vals@.take(n as int) =~= vals@);
                }
            },
            _ => {
                proof {
                    assert(ret@.map_values(|a: Article| a.model()) =~= Seq::<
                        ArticleModel,
                    >::empty());
                }
            },
        }
        ret
    }
}

impl Default for Article {
    /// An article with every field empty.
    fn default() -> (r: Article)
        ensures
            r.model() == (ArticleModel {
                title: Seq::empty(),
                menu_title: Seq::empty(),
                body: Seq::empty(),
            }),
    {
        Article {
            title: String::new(),
            menu_title: String::new(),
            body: String::new(),
        }
    }
}

/// The help page state: the loaded articles, the active article
/// (counted from 1), and the scroll state of the active article's
/// body.
pub struct Help {
    pub active_article: usize,
    pub articles: Vec<Article>,
    pub overflow_lines: usize,
    pub scroll_offset: usize,
}

impl Help {
    /// A help page over the given articles, opened at the first one.
    pub fn new(articles: Vec<Article>) -> (r: Help)
        ensures
            r.active_article == 1,
            r.articles == articles,
            r.overflow_lines == 0,
            r.scroll_offset == 0,
    {
        Help { active_article: 1, articles, overflow_lines: 0, scroll_offset: 0 }
    }

    /// Printable characters do nothing on the help page.
    pub fn event_keypress(&mut self, _c: char) -> (r: bool)
        ensures
            r == false,
            *final(self) == *old(self),
    {
        return false;
    }

    /// Page keys move between articles and reset the scroll state;
    /// arrow keys scroll the active article four lines at a time,
    /// clamped to the overflow.  Returns whether the key was handled.
    pub fn event_keypress_special(&mut self, c: Key) -> (r: bool)
        ensures
            c == Key::PageUp ==> r && (if old(self).active_article > 1 {
                final(self).active_article == old(self).active_article - 1
            } else {
                final(self).active_article == old(self).active_article
            }) && final(self).overflow_lines == 0 && final(self).scroll_offset == 0 && final(self).articles == old(self).articles,
            c == Key::PageDown ==> r && (if old(self).active_article < old(self).articles@.len() {
                final(self).active_article == old(self).active_article + 1
            } else {
                final(self).active_article == old(self).active_article
            }) && final(self).overflow_lines == 0 && final(self).scroll_offset == 0 && final(self).articles == old(self).articles,
            c == Key::Up ==> r && final(self).scroll_offset == (if old(self).scroll_offset >= 4 {
                old(self).scroll_offset - 4
            } else {
                0
            }) && final(self).active_article == old(self).active_article && final(self).overflow_lines == old(self).overflow_lines && final(self).articles == old(self).articles,
            c == Key::Down ==> r && (if old(self).scroll_offset + 4 <= old(self).overflow_lines {
                final(self).scroll_offset == old(self).scroll_offset + 4
            } else if old(self).scroll_offset <= old(self).overflow_lines {
                final(self).scroll_offset == old(self).overflow_lines
            } else {
                final(self).scroll_offset == old(self).scroll_offset
            }) && final(self).active_article == old(self).active_article && final(self).overflow_lines == old(self).overflow_lines && final(self).articles == old(self).articles,
            !(c == Key::PageUp || c == Key::PageDown || c == Key::Up || c == Key::Down) ==> !r
                && *final(self) == *old(self),
    {
        match c {
            Key::PageUp => {
                if self.active_article > 1 {
                    self.active_article = self.active_article - 1;
                }
                self.overflow_lines = 0;
                self.scroll_offset = 0;
                true
            },
            Key::PageDown => {
                if self.active_article < self.articles.len() {
                    self.active_article = self.active_article + 1;
                }
                self.overflow_lines = 0;
                self.scroll_offset = 0;
                true
            },
            Key::Up => {
                if self.scroll_offset >= 4 {
                    self.scroll_offset = self.scroll_offset - 4;
                } else {
                    self.scroll_offset = 0;
                }
                true
            },
            Key::Down => {
                if self.scroll_offset <= self.overflow_lines {
                    if self.overflow_lines - self.scroll_offset >= 4 {
                        self.scroll_offset = self.scroll_offset + 4;
                    } else {
                        self.scroll_offset = self.overflow_lines;
                    }
                }
                true
            },
            _ => false,
        }
    }

    /// Account for the active article's rendered height: when the body
    /// is taller than the viewport the overflow is recorded and the
    /// current scroll offset is used, otherwise the scroll state rests
    /// at the top.
    pub fn compute_scroll(&mut self, lines: usize, height: usize) -> (r: usize)
        ensures
            lines >= height ==> final(self).overflow_lines == lines - height && r == old(self).scroll_offset,
            lines < height ==> final(self).overflow_lines == 0 && r == 0,
            final(self).active_article == old(self).active_article,
            final(self).articles == old(self).articles,
            final(self).scroll_offset == old(self).scroll_offset,
    {
        if lines >= height {
            self.overflow_lines = lines - height;
            self.scroll_offset
        } else {
            self.overflow_lines = 0;
            0
        }
    }
}

impl Default for Help {
    /// A help page with no articles loaded.
    fn default() -> (r: Help)
        ensures
            r.active_article == 1,
            r.articles@.len() == 0,
            r.overflow_lines == 0,
            r.scroll_offset == 0,
    {
        Help { active_article: 1, articles: Vec::new(), overflow_lines: 0, scroll_offset: 0 }
    }
}

} // verus!
