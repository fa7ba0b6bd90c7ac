//! Things that can be summed up in a line.

use vstd::prelude::*;
use vstd::string::*;

verus! {

/// Something that has a one-line summary.
pub trait Summary {
    /// Whether `line` is a summary of this. What says nothing about itself can
    /// be summed up any way.
    open spec fn summed_up_as(&self, line: Seq<char>) -> bool {
        true
    }

    fn summarize(&self) -> (line: String)
        ensures
            self.summed_up_as(line@),
    ;
}

/// Something that has a teaser, the same for all.
pub trait Summary2 {
    fn summarize2(&self) -> (line: String)
        ensures
            line@ == "(Read more...)"@,
    {
        String::from_str("(Read more...)")
    }
}

/// The teaser for something whose author is referred to as `author_line`.
pub open spec fn author_teaser(author_line: Seq<char>) -> Seq<char> {
    "(Read more from "@ + author_line + "...)"@
}

/// Something that has an author, and a teaser that names the author.
pub trait Summary3 {
    /// Whether `line` is how the author is referred to. What says nothing
    /// about its author can refer to it any way.
    open spec fn written_by(&self, line: Seq<char>) -> bool {
        true
    }

    fn summarize_author(&self) -> (line: String)
        ensures
            self.written_by(line@),
    ;

    fn summarize3(&self) -> (line: String)
        ensures
            exists|author: Seq<char>| #[trigger]
                self.written_by(author) && line@ == author_teaser(author),
    {
        let mut line = String::from_str("(Read more from ");
        let author = self.summarize_author();
        line.append(author.as_str());
        line.append("...)");
        assert(self.written_by(author@) && line@ == author_teaser(author@));
        line
    }
}

pub struct NewsArticle {
    pub headline: String,
    pub location: String,
    pub author: String,
    pub content: String,
}

impl NewsArticle {
    /// The article in a line: its headline, its author and where it was
    /// written.
    pub open spec fn summary(&self) -> Seq<char> {
        self.headline@ + ", by "@ + self.author@ + " ("@ + self.location@ + ")"@
    }

    /// How the article refers to its author.
    pub open spec fn author_line(&self) -> Seq<char> {
        "@"@ + self.author@
    }
}

impl Summary for NewsArticle {
    open spec fn summed_up_as(&self, line: Seq<char>) -> bool {
        line == self.summary()
    }

    fn summarize(&self) -> (line: String) {
        let mut line = self.headline.clone();
        line.append(", by ");
        line.append(self.author.as_str());
        line.append(" (");
        line.append(self.location.as_str());
        line.append(")");
        line
    }
}

impl Summary3 for NewsArticle {
    open spec fn written_by(&self, line: Seq<char>) -> bool {
        line == self.author_line()
    }

    fn summarize_author(&self) -> (line: String) {
        let mut line = String::from_str("@");
        line.append(self.author.as_str());
        line
    }
}

pub struct Tweet {
    pub username: String,
    pub content: String,
    pub reply: bool,
    pub retweet: bool,
}

impl Tweet {
    /// The tweet in a line: who wrote it and what it says.
    pub open spec fn summary(&self) -> Seq<char> {
        self.username@ + ": "@ + self.content@
    }
}

impl Summary for Tweet {
    open spec fn summed_up_as(&self, line: Seq<char>) -> bool {
        line == self.summary()
    }

    fn summarize(&self) -> (line: String) {
        let mut line = self.username.clone();
        line.append(": ");
        line.append(self.content.as_str());
        line
    }
}

impl Summary2 for Tweet {

}

/// Whatever can be shown is summed up by showing it.
impl<T: std::fmt::Display> Summary for T {
    open spec fn summed_up_as(&self, line: Seq<char>) -> bool {
        exists|shown: String| #[trigger]
            to_string_from_display_ensures::<T>(self, shown) && shown@ == line
    }

    fn summarize(&self) -> (line: String) {
        let line = self.to_string();
        assert(to_string_from_display_ensures::<T>(self, line) && line@ == line@);
        line
    }
}

/// The line that announces a piece of news summed up as `summary`.
pub open spec fn announcement(summary: Seq<char>) -> Seq<char> {
    "Breaking news! "@ + summary
}

/// The line under which `item` is announced: its summary, as breaking news.
pub fn notify(item: &impl Summary) -> (line: String)
    ensures
        exists|summary: Seq<char>| #[trigger]
            item.summed_up_as(summary) && line@ == announcement(summary),
{
    let mut line = String::from_str("Breaking news! ");
    let summary = item.summarize();
    line.append(summary.as_str());
    assert(item.summed_up_as(summary@) && line@ == announcement(summary@));
    line
}

/// The same as [`notify`], with the bound spelled out.
pub fn _notify<T: Summary>(item: &T) -> (line: String)
    ensures
        exists|summary: Seq<char>| #[trigger]
            item.summed_up_as(summary) && line@ == announcement(summary),
{
    notify(item)
}

/// The lines under which two items of one type are announced.
pub fn _notify2<T: Summary>(item1: &T, item2: &T) -> (lines: (String, String))
    ensures
        exists|summary: Seq<char>| #[trigger]
            item1.summed_up_as(summary) && lines.0@ == announcement(summary),
        exists|summary: Seq<char>| #[trigger]
            item2.summed_up_as(summary) && lines.1@ == announcement(summary),
{
    (notify(item1), notify(item2))
}

/// The same as [`_notify3`], with the bounds spelled out.
pub fn _notify3_2<T: Summary + Summary3>(item: &T) -> (lines: (String, String))
    ensures
        exists|summary: Seq<char>| #[trigger]
            item.summed_up_as(summary) && lines.0@ == announcement(summary),
        exists|author: Seq<char>| #[trigger]
            item.written_by(author) && lines.1@ == announcement(author_teaser(author)),
{
    _notify3(item)
}

/// The two lines under which `item` is announced: its summary, then the
/// teaser that names its author.
pub fn _notify3(item: &(impl Summary + Summary3)) -> (lines: (String, String))
    ensures
        exists|summary: Seq<char>| #[trigger]
            item.summed_up_as(summary) && lines.0@ == announcement(summary),
        exists|author: Seq<char>| #[trigger]
            item.written_by(author) && lines.1@ == announcement(author_teaser(author)),
{
    let mut second = String::from_str("Breaking news! ");
    let teaser = item.summarize3();
    second.append(teaser.as_str());
    proof {
        let author = choose|author: Seq<char>| #[trigger]
            item.written_by(author) && teaser@ == author_teaser(author);
        assert(item.written_by(author) && second@ == announcement(author_teaser(author)));
    }
    (notify(item), second)
}

/// Takes any two things that can be shown and cloned, and makes nothing of
/// them.
pub fn _some_function<T: std::fmt::Display + Clone, U: Clone + std::fmt::Debug>(
    _t: &T,
    _u: &U,
) -> (nothing: i32)
    ensures
        nothing == 0,
{
    0
}

/// The same, with the bounds set apart.
pub fn _some_function_2<T, U>(_t: &T, _u: &U) -> (nothing: i32) where
    T: std::fmt::Display + Clone,
    U: Clone + std::fmt::Debug,

    ensures
        nothing == 0,
{
    0
}

/// A tweet to try things on.
pub fn _returns_summarizable() -> (tweet: Tweet)
    ensures
        tweet.username@ == "horse_ebooks"@,
        tweet.content@ == "of course, as you probably know, people"@,
        !tweet.reply,
        !tweet.retweet,
{
    Tweet {
        username: String::from_str("horse_ebooks"),
        content: String::from_str("of course, as you probably know, people"),
        reply: false,
        retweet: false,
    }
}

} // verus!
