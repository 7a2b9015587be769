//! The endpoint descriptors and the URLs they resolve to.

use vstd::prelude::*;

verus! {

/// A semantic endpoint descriptor.
#[derive(Debug, Clone)]
pub enum Route {
    /// The about page of a user.
    UserAbout(String),
    /// The about page of a subreddit.
    SubredditAbout(String),
    /// The hot posts of a subreddit.
    SubredditHot(String),
    /// The new posts of a subreddit.
    SubredditNew(String),
    /// The rising posts of a subreddit.
    SubredditRising(String),
    /// The comments of an article in a subreddit.
    SubredditArticle(String, String),
    /// The info endpoint.
    Info,
    /// The comment submission endpoint.
    Comment,
    /// The comments of a submission.
    Submission(String),
    /// One comment thread under a submission.
    SubmissionComment(String, String),
    /// A caller-supplied path.
    Custom(String),
    /// The spoiler-marking endpoint.
    Spoiler,
    /// The spoiler-unmarking endpoint.
    Unspoiler,
    /// The award-reporting endpoint.
    ReportAward,
    /// The adult-marking endpoint.
    SetNSFW,
    /// The adult-unmarking endpoint.
    UnsetNSFW,
    /// The thread-locking endpoint.
    Lock,
    /// The thread-unlocking endpoint.
    Unlock,
    /// The follow endpoint.
    Follow,
    /// The submission endpoint.
    Submit,
    /// The username-availability endpoint.
    UsernameAvailable,
}

/// The path a descriptor resolves to, under the API host.
pub open spec fn spec_route_path(r: Route) -> Seq<char> {
    match r {
        Route::UserAbout(u) => "/user/"@ + u@ + "/about"@,
        Route::SubredditAbout(s) => "/r/"@ + s@ + "/about"@,
        Route::SubredditHot(s) => "/r/"@ + s@ + "/hot"@,
        Route::SubredditNew(s) => "/r/"@ + s@ + "/new"@,
        Route::SubredditRising(s) => "/r/"@ + s@ + "/rising"@,
        Route::SubredditArticle(s, a) => "/r/"@ + s@ + "/comments/"@ + a@,
        Route::Info => "/api/info"@,
        Route::Comment => "/api/comment"@,
        Route::Submission(s) => "/comments/"@ + s@ + "/"@,
        Route::SubmissionComment(s, c) => "/comments/"@ + s@ + "/_/"@ + c@,
        Route::Custom(c) => c@,
        Route::Spoiler => "/api/spoiler"@,
        Route::Unspoiler => "/api/unspoiler"@,
        Route::ReportAward => "/api/report_award"@,
        Route::SetNSFW => "/api/marknsfw"@,
        Route::UnsetNSFW => "/api/unmarknsfw"@,
        Route::Lock => "/api/lock"@,
        Route::Unlock => "/api/unlock"@,
        Route::Follow => "/api/follow"@,
        Route::Submit => "/api/submit"@,
        Route::UsernameAvailable => "/api/username_available"@,
    }
}

/// The absolute URL a descriptor resolves to.
pub open spec fn spec_route_url(r: Route) -> Seq<char> {
    "https://oauth.reddit.com"@ + spec_route_path(r)
}

impl Route {
    /// Resolves the descriptor to its absolute URL.
    pub fn url(&self) -> (u: String)
        ensures
            u@ == spec_route_url(*self),
    {
        let mut s = "https://oauth.reddit.com".to_owned();
        match self {
            Route::UserAbout(u) => {
                s.append("/user/");
                s.append(u.as_str());
                s.append("/about");
            },
            Route::SubredditAbout(n) => {
                s.append("/r/");
                s.append(n.as_str());
                s.append("/about");
            },
            Route::SubredditHot(n) => {
                s.append("/r/");
                s.append(n.as_str());
                s.append("/hot");
            },
            Route::SubredditNew(n) => {
                s.append("/r/");
                s.append(n.as_str());
                s.append("/new");
            },
            Route::SubredditRising(n) => {
                s.append("/r/");
                s.append(n.as_str());
                s.append("/rising");
            },
            Route::SubredditArticle(n, a) => {
                s.append("/r/");
                s.append(n.as_str());
                s.append("/comments/");
                s.append(a.as_str());
            },
            Route::Info => {
                s.append("/api/info");
            },
            Route::Comment => {
                s.append("/api/comment");
            },
            Route::Submission(n) => {
                s.append("/comments/");
                s.append(n.as_str());
                s.append("/");
            },
            Route::SubmissionComment(n, c) => {
                s.append("/comments/");
                s.append(n.as_str());
                s.append("/_/");
                s.append(c.as_str());
            },
            Route::Custom(c) => {
                s.append(c.as_str());
            },
            Route::Spoiler => {
                s.append("/api/spoiler");
            },
            Route::Unspoiler => {
                s.append("/api/unspoiler");
            },
            Route::ReportAward => {
                s.append("/api/report_award");
            },
            Route::SetNSFW => {
                s.append("/api/marknsfw");
            },
            Route::UnsetNSFW => {
                s.append("/api/unmarknsfw");
            },
            Route::Lock => {
                s.append("/api/lock");
            },
            Route::Unlock => {
                s.append("/api/unlock");
            },
            Route::Follow => {
                s.append("/api/follow");
            },
            Route::Submit => {
                s.append("/api/submit");
            },
            Route::UsernameAvailable => {
                s.append("/api/username_available");
            },
        }
        proof {
            assert(s@ =~= spec_route_url(*self));
        }
        s
    }

    /// Resolves the descriptor to its absolute URL with the flag that
    /// suppresses HTML entity escaping in response bodies.
    pub fn url_raw_json(&self) -> (u: String)
        ensures
            u@ == spec_route_url(*self) + "?raw_json=1"@,
    {
        let mut s = self.url();
        s.append("?raw_json=1");
        s
    }
}

} // verus!
