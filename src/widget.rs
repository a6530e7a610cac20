//! Addresses of the badge, large and small widget images.
use vstd::prelude::*;

use url::ParseError;
use url::Url;

use crate::decimal::{decimal, push_decimal};
use crate::params::{set_param, ParamView, QueryParams};
use crate::types::BotId;
use crate::{parse_url, parse_url_with_params, url_accepts, url_with_params_accepts};

verus! {

/// Kinds of badge image.
#[derive(Debug, Clone, Copy, PartialEq, Eq, Structural)]
pub enum Badge {
    Owner,
    Upvotes,
    Servers,
    Status,
    Library,
}

/// The path segment that names a badge kind.
pub open spec fn badge_kind(b: Badge) -> Seq<char> {
    match b {
        Badge::Owner => "owner"@,
        Badge::Library => "lib"@,
        Badge::Servers => "servers"@,
        Badge::Status => "status"@,
        Badge::Upvotes => "upvotes"@,
    }
}

/// The address of a badge, before it is parsed.
pub open spec fn badge_address(b: Badge, bot: BotId, show_avatar: bool) -> Seq<char> {
    "https://top.gg/api/widget/"@ + badge_kind(b) + "/"@ + decimal(bot.0 as nat) + ".svg"@ + (
    if show_avatar {
        Seq::<char>::empty()
    } else {
        "?noavatar=true"@
    })
}

/// The address of a large or small widget, before its query is added.
pub open spec fn widget_address(bot: BotId) -> Seq<char> {
    "https://top.gg/api/widget/"@ + decimal(bot.0 as nat) + ".svg"@
}

fn widget_base(bot: BotId) -> (r: String)
    ensures
        r@ == widget_address(bot),
{
    let mut s = String::from_str("https://top.gg/api/widget/");
    push_decimal(&mut s, bot.0);
    s.append(".svg");
    s
}

impl Badge {
    fn kind_text(&self) -> (r: &'static str)
        ensures
            r@ == badge_kind(*self),
    {
        match self {
            Badge::Owner => "owner",
            Badge::Library => "lib",
            Badge::Servers => "servers",
            Badge::Status => "status",
            Badge::Upvotes => "upvotes",
        }
    }

    /// The text of the badge's address for `bot`; without the avatar where
    /// `show_avatar` is false.
    pub fn address(&self, bot: BotId, show_avatar: bool) -> (r: String)
        ensures
            r@ == badge_address(*self, bot, show_avatar),
    {
        let mut s = String::from_str("https://top.gg/api/widget/");
        s.append(self.kind_text());
        s.append("/");
        push_decimal(&mut s, bot.0);
        s.append(".svg");
        if !show_avatar {
            s.append("?noavatar=true");
        }
        proof {
            if show_avatar {
                assert(s@ =~= badge_address(*self, bot, show_avatar));
            }
        }
        s
    }

    /// The badge's address for `bot`, parsed.
    pub fn build(&self, bot: BotId, show_avatar: bool) -> (r: Result<Url, ParseError>)
        ensures
            r is Ok == url_accepts(badge_address(*self, bot, show_avatar)),
    {
        let s = self.address(bot, show_avatar);
        parse_url(s.as_str())
    }
}

/// Builder of the address of a large widget image.
pub struct LargeWidget {
    params: QueryParams,
}

impl View for LargeWidget {
    type V = Seq<ParamView>;

    closed spec fn view(&self) -> Seq<ParamView> {
        self.params@
    }
}

impl LargeWidget {
    pub closed spec fn wf(&self) -> bool {
        self.params.wf()
    }

    /// A widget with the default colors.
    pub fn new() -> (r: LargeWidget)
        ensures
            r@ == Seq::<ParamView>::empty(),
            r.wf(),
    {
        LargeWidget { params: QueryParams::new() }
    }

    /// The widget's address for `bot`, with the colors set so far in its query.
    pub fn build(self, bot: BotId) -> (r: Result<Url, ParseError>)
        ensures
            r is Ok == url_with_params_accepts(widget_address(bot), self@),
    {
        let base = widget_base(bot);
        parse_url_with_params(base.as_str(), self.params.pairs())
    }

    /// Sets the `topcolor` parameter.
    pub fn top_color(self, color: &str) -> (r: LargeWidget)
        requires
            self.wf(),
        ensures
            r@ == set_param(self@, "topcolor"@, color@),
            r.wf(),
    {
        let mut w = self;
        w.params.set("topcolor", String::from_str(color));
        w
    }

    /// Sets the `middlecolor` parameter.
    pub fn middle_color(self, color: &str) -> (r: LargeWidget)
        requires
            self.wf(),
        ensures
            r@ == set_param(self@, "middlecolor"@, color@),
            r.wf(),
    {
        let mut w = self;
        w.params.set("middlecolor", String::from_str(color));
        w
    }

    /// Sets the `usernamecolor` parameter.
    pub fn username_color(self, color: &str) -> (r: LargeWidget)
        requires
            self.wf(),
        ensures
            r@ == set_param(self@, "usernamecolor"@, color@),
            r.wf(),
    {
        let mut w = self;
        w.params.set("usernamecolor", String::from_str(color));
        w
    }

    /// Sets the `certifiedcolor` parameter.
    pub fn certified_color(self, color: &str) -> (r: LargeWidget)
        requires
            self.wf(),
        ensures
            r@ == set_param(self@, "certifiedcolor"@, color@),
            r.wf(),
    {
        let mut w = self;
        w.params.set("certifiedcolor", String::from_str(color));
        w
    }

    /// Sets the `datacolor` parameter.
    pub fn data_color(self, color: &str) -> (r: LargeWidget)
        requires
            self.wf(),
        ensures
            r@ == set_param(self@, "datacolor"@, color@),
            r.wf(),
    {
        let mut w = self;
        w.params.set("datacolor", String::from_str(color));
        w
    }

    /// Sets the `labelcolor` parameter.
    pub fn label_color(self, color: &str) -> (r: LargeWidget)
        requires
            self.wf(),
        ensures
            r@ == set_param(self@, "labelcolor"@, color@),
            r.wf(),
    {
        let mut w = self;
        w.params.set("labelcolor", String::from_str(color));
        w
    }

    /// Sets the `hightlightcolor` parameter.
    pub fn hightlight_color(self, color: &str) -> (r: LargeWidget)
        requires
            self.wf(),
        ensures
            r@ == set_param(self@, "hightlightcolor"@, color@),
            r.wf(),
    {
        let mut w = self;
        w.params.set("hightlightcolor", String::from_str(color));
        w
    }
}

/// Builder of the address of a small widget image.
pub struct SmallWidget {
    params: QueryParams,
}

impl View for SmallWidget {
    type V = Seq<ParamView>;

    closed spec fn view(&self) -> Seq<ParamView> {
        self.params@
    }
}

impl SmallWidget {
    pub closed spec fn wf(&self) -> bool {
        self.params.wf()
    }

    /// A widget with the default colors.
    pub fn new() -> (r: SmallWidget)
        ensures
            r@ == Seq::<ParamView>::empty(),
            r.wf(),
    {
        SmallWidget { params: QueryParams::new() }
    }

    /// The widget's address for `bot`, with the colors set so far in its query.
    pub fn build(self, bot: BotId) -> (r: Result<Url, ParseError>)
        ensures
            r is Ok == url_with_params_accepts(widget_address(bot), self@),
    {
        let base = widget_base(bot);
        parse_url_with_params(base.as_str(), self.params.pairs())
    }

    /// Sets the `avatarbgcolor` parameter.
    pub fn avatarbg_color(self, color: &str) -> (r: SmallWidget)
        requires
            self.wf(),
        ensures
            r@ == set_param(self@, "avatarbgcolor"@, color@),
            r.wf(),
    {
        let mut w = self;
        w.params.set("avatarbgcolor", String::from_str(color));
        w
    }

    /// Sets the `leftcolor` parameter.
    pub fn left_color(self, color: &str) -> (r: SmallWidget)
        requires
            self.wf(),
        ensures
            r@ == set_param(self@, "leftcolor"@, color@),
            r.wf(),
    {
        let mut w = self;
        w.params.set("leftcolor", String::from_str(color));
        w
    }

    /// Sets the `rightcolor` parameter.
    pub fn right_color(self, color: &str) -> (r: SmallWidget)
        requires
            self.wf(),
        ensures
            r@ == set_param(self@, "rightcolor"@, color@),
            r.wf(),
    {
        let mut w = self;
        w.params.set("rightcolor", String::from_str(color));
        w
    }

    /// Sets the `lefttextcolor` parameter.
    pub fn lefttext_color(self, color: &str) -> (r: SmallWidget)
        requires
            self.wf(),
        ensures
            r@ == set_param(self@, "lefttextcolor"@, color@),
            r.wf(),
    {
        let mut w = self;
        w.params.set("lefttextcolor", String::from_str(color));
        w
    }

    /// Sets the `righttextcolor` parameter.
    pub fn righttext_color(self, color: &str) -> (r: SmallWidget)
        requires
            self.wf(),
        ensures
            r@ == set_param(self@, "righttextcolor"@, color@),
            r.wf(),
    {
        let mut w = self;
        w.params.set("righttextcolor", String::from_str(color));
        w
    }
}

} // verus!
