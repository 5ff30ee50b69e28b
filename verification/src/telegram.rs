//! The addresses of the bot interface, and how the images of a message are
//! named.

use crate::page::{join_url, joined_url_of, normal_url, normal_url_of};
use crate::text::{decimal_digits, decimal_string};
use vstd::prelude::*;

verus! {

/// The address under which a bot with the given token is reached, before it
/// is read as an address.
pub open spec fn bot_address(token: Seq<char>) -> Seq<char> {
    "https://api.telegram.org/bot"@ + token + "/"@
}

/// The addresses of a bot.
pub struct Telegram {
    base: String,
}

impl Telegram {
    /// The address under which the bot is reached.
    pub closed spec fn spec_base(self) -> Seq<char> {
        self.base@
    }

    /// The bot with the given token; `None` where the token does not make an
    /// address.
    pub fn new(token: &str) -> (bot: Option<Telegram>)
        ensures
            match bot {
                Some(bot) => normal_url_of(bot_address(token@)) == Some(bot.spec_base()),
                None => normal_url_of(bot_address(token@)) is None,
            },
    {
        let mut raw = String::from_str("https://api.telegram.org/bot");
        raw.append(token);
        raw.append("/");
        match normal_url(raw.as_str()) {
            Some(base) => Some(Telegram { base }),
            None => None,
        }
    }

    /// The address under which the bot is reached.
    pub fn base(&self) -> (base: &String)
        ensures
            base@ == self.spec_base(),
    {
        &self.base
    }

    /// The address of a method of the bot, such as `sendMessage`; `None`
    /// where the name does not make an address.
    pub fn method(&self, name: &str) -> (address: Option<String>)
        ensures
            address.deep_view() == joined_url_of(self.spec_base(), name@),
    {
        join_url(self.base.as_str(), name)
    }
}

/// How one image of a message is sent.
#[derive(Debug)]
pub struct Photo {
    /// The name of the form field that holds the image.
    pub field_name: String,
    /// The name of the image as a file.
    pub file_name: String,
    /// The reference to the form field in the list of media.
    pub media: String,
    /// The text shown with the image.
    pub caption: Option<String>,
}

/// The mathematical value of a [`Photo`].
pub struct PhotoView {
    pub field_name: Seq<char>,
    pub file_name: Seq<char>,
    pub media: Seq<char>,
    pub caption: Option<Seq<char>>,
}

impl View for Photo {
    type V = PhotoView;

    open spec fn view(&self) -> PhotoView {
        PhotoView {
            field_name: self.field_name@,
            file_name: self.file_name@,
            media: self.media@,
            caption: self.caption.deep_view(),
        }
    }
}

impl DeepView for Photo {
    type V = PhotoView;

    open spec fn deep_view(&self) -> PhotoView {
        self@
    }
}

/// How the image at `index` of a message with the text `text` is sent:
/// fields are counted from 1, files from 0, and the first image carries the
/// text.
pub open spec fn photo_of(index: nat, text: Seq<char>) -> PhotoView {
    PhotoView {
        field_name: "file"@ + decimal_digits(index + 1),
        file_name: decimal_digits(index) + ".png"@,
        media: "attach://file"@ + decimal_digits(index + 1),
        caption: if index == 0 {
            Some(text)
        } else {
            None
        },
    }
}

/// How the images of a message are sent, for `count` images.
pub fn media_group(count: usize, text: &str) -> (photos: Vec<Photo>)
    ensures
        photos.len() == count,
        forall|i: int| 0 <= i < count ==> (#[trigger] photos@[i])@ == photo_of(i as nat, text@),
{
    let mut photos: Vec<Photo> = Vec::new();
    let mut index: usize = 0;
    while index < count
        invariant
            index <= count,
            photos.len() == index,
            forall|i: int| 0 <= i < index ==> (#[trigger] photos@[i])@ == photo_of(i as nat, text@),
        decreases count - index,
    {
        let number = decimal_string(index as u64 + 1);
        let mut field_name = String::from_str("file");
        field_name.append(number.as_str());
        let mut file_name = decimal_string(index as u64);
        file_name.append(".png");
        let mut media = String::from_str("attach://file");
        media.append(number.as_str());
        let caption = if index == 0 {
            Some(String::from_str(text))
        } else {
            None
        };
        photos.push(Photo { field_name, file_name, media, caption });
        index += 1;
    }
    photos
}

} // verus!
