//! The HTML email sent for a published post: one document per recipient,
//! filled from the post, the site settings and the recipient.
use vstd::prelude::*;
use vstd::string::StringExecFns;
use crate::config::Config;
use crate::dispatch::BatchSpan;
use crate::ghost::{Author, Member, Post, Settings};

verus! {

/// The page from its start to the site title in the header.
pub const PAGE_OPEN: &'static str = r#"
        <!DOCTYPE html>
        <html lang="en">
        <head>
            <meta charset="utf-8">
            <meta name="viewport" content="width=device-width, initial-scale=1">
            <style>
                /* Reset styles */
                body, div, p, h1, h2 {
                    margin: 0;
                    padding: 0;
                }

                /* Base styles */
                body {
                    font-family: -apple-system, BlinkMacSystemFont, 'Segoe UI', Roboto, Oxygen, Ubuntu, Cantarell, 'Open Sans', 'Helvetica Neue', sans-serif;
                    line-height: 1.6;
                    color: #333;
                    background: #ffffff;
                    padding: 0;
                    margin: 0;
                }

                /* Container */
                .container {
                    max-width: 600px;
                    margin: 0 auto;
                    padding: 40px 20px;
                }

                /* Header */
                .header {
                    text-align: center;
                    padding-bottom: 30px;
                    border-bottom: 1px solid #e5eff5;
                    margin-bottom: 30px;
                }

                .header h1 {
                    font-size: 28px;
                    font-weight: 600;
                    margin-bottom: 10px;
                }

                /* Post title */
                .post-title {
                    font-size: 32px;
                    line-height: 1.3;
                    font-weight: 700;
                    margin-bottom: 20px;
                }

                /* Feature image */
                .feature-image {
                    width: 100%;
                    height: auto;
                    margin: 30px 0;
                    border-radius: 5px;
                }

                .feature-caption {
                    font-size: 14px;
                    color: #738a94;
                    text-align: center;
                    margin-top: 10px;
                }

                /* Author info */
                .author-info {
                    display: flex;
                    align-items: center;
                    margin: 30px 0;
                }

                .author-image {
                    width: 60px;
                    height: 60px;
                    border-radius: 100%;
                    margin-right: 15px;
                }

                .author-name {
                    font-weight: 600;
                    font-size: 16px;
                }

                .author-bio {
                    color: #738a94;
                    font-size: 14px;
                    margin-top: 5px;
                }

                /* Content */
                .content {
                    font-size: 16px;
                    line-height: 1.7;
                    margin: 0 auto;
                }

                .content p {
                    margin-bottom: 1.5em;
                }

                .content img {
                    max-width: 100%;
                    height: auto;
                    margin: 30px 0;
                }

                /* Footer */
                .footer {
                    margin-top: 50px;
                    padding-top: 30px;
                    border-top: 1px solid #e5eff5;
                    text-align: center;
                    font-size: 14px;
                    color: #738a94;
                }

                .footer a {
                    color: #3eb0ef;
                    text-decoration: none;
                }

                /* Reading time */
                .reading-time {
                    font-size: 14px;
                    color: #738a94;
                    margin-bottom: 30px;
                }

                /* Links */
                a {
                    color: #3eb0ef;
                    text-decoration: none;
                }

                /* Responsive */
                @media (max-width: 600px) {
                    .container {
                        padding: 20px 15px;
                    }

                    .post-title {
                        font-size: 28px;
                    }
                }

                /* Add these new styles after the header styles */
                .view-online-link {
                    display: block;
                    text-align: center;
                    margin-bottom: 30px;
                    color: #738a94;
                    font-size: 13px;
                    text-decoration: none;
                }

                .view-online-link:hover {
                    color: #3eb0ef;
                }
            </style>
        </head>
        <body>
            <div class="container">
                <div class="header">
                    <h1>"#;

/// From the site title to the post address.
pub const AFTER_SITE_TITLE: &'static str = r#"</h1>
                </div>

                <a href=""#;

/// From the post address to the post title.
pub const AFTER_POST_URL: &'static str = r#"" class="view-online-link">View this post in your browser →</a>

                <article>
                    <h1 class="post-title">"#;

/// From the post title to the reading time.
pub const AFTER_POST_TITLE: &'static str = r#"</h1>
                    
                    <div class="reading-time">
                        "#;

/// From the reading time to the feature image.
pub const AFTER_READING_TIME: &'static str = r#" min read
                    </div>

                    "#;

/// From the feature image to the author image.
pub const AFTER_FEATURE_IMAGE: &'static str = r#"

                    <div class="author-info">
                        "#;

/// From the author image to the author name.
pub const AFTER_AUTHOR_IMAGE: &'static str = r#"
                        <div>
                            <div class="author-name">"#;

/// From the author name to the author bio.
pub const AFTER_AUTHOR_NAME: &'static str = r#"</div>
                            "#;

/// From the author bio to the post content.
pub const AFTER_AUTHOR_BIO: &'static str = r#"
                        </div>
                    </div>

                    <div class="content">
                        "#;

/// From the post content to the site title in the footer.
pub const AFTER_CONTENT: &'static str = r#"
                    </div>
                </article>

                <div class="footer">
                    <p>You received this email because you signed up for updates from "#;

/// From the footer site title to the subscription link.
pub const AFTER_FOOTER_TITLE: &'static str = r#".</p>
                    <p>
                        <a href=""#;

/// From the subscription link to the unsubscribe link.
pub const AFTER_SUBSCRIPTION_LINK: &'static str = r#"">Manage subscription</a> • 
                        <a href=""#;

/// From the unsubscribe link to the end of the page.
pub const PAGE_CLOSE: &'static str = r#"">Unsubscribe</a>
                    </p>
                </div>
            </div>
        </body>
        </html>
    "#;

/// The text of a decimal digit.
pub open spec fn digit_text(d: nat) -> Seq<char> {
    if d == 0 {
        "0"@
    } else if d == 1 {
        "1"@
    } else if d == 2 {
        "2"@
    } else if d == 3 {
        "3"@
    } else if d == 4 {
        "4"@
    } else if d == 5 {
        "5"@
    } else if d == 6 {
        "6"@
    } else if d == 7 {
        "7"@
    } else if d == 8 {
        "8"@
    } else {
        "9"@
    }
}

/// `n` written in decimal, without leading zeros.
pub open spec fn decimal(n: nat) -> Seq<char>
    decreases n,
{
    if n < 10 {
        digit_text(n)
    } else {
        decimal(n / 10) + digit_text(n % 10)
    }
}

/// The feature image with its alt text and caption, or nothing.
pub open spec fn feature_image_html(post: Post) -> Seq<char> {
    match post.feature_image {
        None => Seq::empty(),
        Some(url) => "<img src=\""@ + url@ + "\" alt=\""@ + match post.feature_image_alt {
            Some(alt) => alt@,
            None => Seq::empty(),
        } + "\" class=\"feature-image\">"@ + match post.feature_image_caption {
            Some(c) => "<div class=\"feature-caption\">"@ + c@ + "</div>"@,
            None => Seq::empty(),
        },
    }
}

/// The author's picture, or nothing.
pub open spec fn author_image_html(author: Author) -> Seq<char> {
    match author.profile_image {
        None => Seq::empty(),
        Some(url) => "<img src=\""@ + url@ + "\" alt=\""@ + author.name@ + "\" class=\"author-image\">"@,
    }
}

/// The author's bio, or nothing.
pub open spec fn author_bio_html(author: Author) -> Seq<char> {
    match author.bio {
        None => Seq::empty(),
        Some(bio) => "<div class=\"author-bio\">"@ + bio@ + "</div>"@,
    }
}

/// Where a member manages their subscription.
pub open spec fn subscription_link(config: Config) -> Seq<char> {
    config.ghost_url@ + "#/portal/account"@
}

/// Where a member unsubscribes.
pub open spec fn unsubscribe_link(config: Config, member: Member) -> Seq<char> {
    config.ghost_url@ + "#/portal/account?action=unsubscribe&uuid="@ + member.id@
}

/// The email document for `member` about `post`.
pub open spec fn email_html(post: Post, member: Member, config: Config, settings: Settings) -> Seq<char> {
    PAGE_OPEN@ + settings.title@ + AFTER_SITE_TITLE@ + post.url@ + AFTER_POST_URL@ + post.title@
        + AFTER_POST_TITLE@ + decimal(post.reading_time as nat) + AFTER_READING_TIME@
        + feature_image_html(post) + AFTER_FEATURE_IMAGE@ + author_image_html(post.primary_author)
        + AFTER_AUTHOR_IMAGE@ + post.primary_author.name@ + AFTER_AUTHOR_NAME@ + author_bio_html(
        post.primary_author,
    ) + AFTER_AUTHOR_BIO@ + post.html@ + AFTER_CONTENT@ + settings.title@ + AFTER_FOOTER_TITLE@
        + subscription_link(config) + AFTER_SUBSCRIPTION_LINK@ + unsubscribe_link(config, member)
        + PAGE_CLOSE@
}

fn digit_str(d: u32) -> (r: &'static str)
    requires
        d < 10,
    ensures
        r@ == digit_text(d as nat),
{
    if d == 0 {
        "0"
    } else if d == 1 {
        "1"
    } else if d == 2 {
        "2"
    } else if d == 3 {
        "3"
    } else if d == 4 {
        "4"
    } else if d == 5 {
        "5"
    } else if d == 6 {
        "6"
    } else if d == 7 {
        "7"
    } else if d == 8 {
        "8"
    } else {
        "9"
    }
}

/// Appends `n` in decimal to `s`.
fn append_decimal(s: &mut String, n: u32)
    ensures
        final(s)@ == old(s)@ + decimal(n as nat),
    decreases n,
{
    if n >= 10 {
        append_decimal(s, n / 10);
    }
    s.append(digit_str(n % 10));
    proof {
        if n < 10 {
            assert(n % 10 == n);
        }
    }
}

fn append_feature_image(s: &mut String, post: &Post)
    ensures
        final(s)@ == old(s)@ + feature_image_html(*post),
{
    match &post.feature_image {
        None => {
            assert(old(s)@ + Seq::<char>::empty() =~= old(s)@);
        },
        Some(url) => {
            s.append("<img src=\"");
            s.append(url.as_str());
            s.append("\" alt=\"");
            match &post.feature_image_alt {
                Some(alt) => s.append(alt.as_str()),
                None => {},
            }
            s.append("\" class=\"feature-image\">");
            match &post.feature_image_caption {
                Some(c) => {
                    s.append("<div class=\"feature-caption\">");
                    s.append(c.as_str());
                    s.append("</div>");
                },
                None => {},
            }
            assert(s@ =~= old(s)@ + feature_image_html(*post));
        },
    }
}

fn append_author_image(s: &mut String, author: &Author)
    ensures
        final(s)@ == old(s)@ + author_image_html(*author),
{
    match &author.profile_image {
        None => {
            assert(old(s)@ + Seq::<char>::empty() =~= old(s)@);
        },
        Some(url) => {
            s.append("<img src=\"");
            s.append(url.as_str());
            s.append("\" alt=\"");
            s.append(author.name.as_str());
            s.append("\" class=\"author-image\">");
            assert(s@ =~= old(s)@ + author_image_html(*author));
        },
    }
}

fn append_author_bio(s: &mut String, author: &Author)
    ensures
        final(s)@ == old(s)@ + author_bio_html(*author),
{
    match &author.bio {
        None => {
            assert(old(s)@ + Seq::<char>::empty() =~= old(s)@);
        },
        Some(bio) => {
            s.append("<div class=\"author-bio\">");
            s.append(bio.as_str());
            s.append("</div>");
            assert(s@ =~= old(s)@ + author_bio_html(*author));
        },
    }
}

/// Renders the email document for `member` about `post`.
pub fn format_email(post: &Post, member: &Member, config: &Config, settings: &Settings) -> (r: String)
    ensures
        r@ == email_html(*post, *member, *config, *settings),
{
    let mut s = String::new();
    s.append(PAGE_OPEN);
    s.append(settings.title.as_str());
    s.append(AFTER_SITE_TITLE);
    s.append(post.url.as_str());
    s.append(AFTER_POST_URL);
    s.append(post.title.as_str());
    s.append(AFTER_POST_TITLE);
    append_decimal(&mut s, post.reading_time);
    s.append(AFTER_READING_TIME);
    append_feature_image(&mut s, post);
    s.append(AFTER_FEATURE_IMAGE);
    append_author_image(&mut s, &post.primary_author);
    s.append(AFTER_AUTHOR_IMAGE);
    s.append(post.primary_author.name.as_str());
    s.append(AFTER_AUTHOR_NAME);
    append_author_bio(&mut s, &post.primary_author);
    s.append(AFTER_AUTHOR_BIO);
    s.append(post.html.as_str());
    s.append(AFTER_CONTENT);
    s.append(settings.title.as_str());
    s.append(AFTER_FOOTER_TITLE);
    s.append(config.ghost_url.as_str());
    s.append("#/portal/account");
    s.append(AFTER_SUBSCRIPTION_LINK);
    s.append(config.ghost_url.as_str());
    s.append("#/portal/account?action=unsubscribe&uuid=");
    s.append(member.id.as_str());
    s.append(PAGE_CLOSE);
    assert(s@ =~= email_html(*post, *member, *config, *settings));
    s
}

/// One outbound email: sender, recipients, subject and HTML body.
#[derive(Clone, Debug)]
pub struct OutgoingEmail {
    pub from: String,
    pub to: Vec<String>,
    pub subject: String,
    pub html: String,
}

/// Email `e` goes from the configured sender to `member` alone, with the
/// post's title as subject and the rendered document as body.
pub open spec fn is_email_for(e: OutgoingEmail, post: Post, member: Member, config: Config, settings: Settings) -> bool {
    &&& e.from@ == config.from_email@
    &&& e.to@.len() == 1
    &&& e.to@[0]@ == member.email@
    &&& e.subject@ == post.title@
    &&& e.html@ == email_html(post, member, config, settings)
}

/// Renders one email per member of the batch `span`, in order.
pub fn compose_batch(
    post: &Post,
    members: &Vec<Member>,
    span: BatchSpan,
    config: &Config,
    settings: &Settings,
) -> (r: Vec<OutgoingEmail>)
    requires
        span.start <= span.end <= members@.len(),
    ensures
        r@.len() == span.end - span.start,
        forall|i: int|
            0 <= i < r@.len() ==> is_email_for(
                #[trigger] r@[i],
                *post,
                members@[span.start + i],
                *config,
                *settings,
            ),
{
    let mut r: Vec<OutgoingEmail> = Vec::new();
    let mut k: usize = span.start;
    while k < span.end
        invariant
            span.start <= k <= span.end <= members@.len(),
            r@.len() == k - span.start,
            forall|i: int|
                0 <= i < r@.len() ==> is_email_for(
                    #[trigger] r@[i],
                    *post,
                    members@[span.start + i],
                    *config,
                    *settings,
                ),
        decreases span.end - k,
    {
        let member = &members[k];
        let html = format_email(post, member, config, settings);
        let mut to: Vec<String> = Vec::new();
        to.push(member.email.clone());
        r.push(
            OutgoingEmail {
                from: config.from_email.clone(),
                to,
                subject: post.title.clone(),
                html,
            },
        );
        k = k + 1;
    }
    r
}

} // verus!
