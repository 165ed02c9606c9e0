//! The article preview card: a title, a body text that falls back to a
//! placeholder, and a strip of at most a fixed number of images drawn from
//! the article's elements in order.

use vstd::prelude::*;

use crate::ids::fresh_id;

verus! {

/// The kind of inline element an article's content breaks into.
#[derive(Clone, Copy, PartialEq, Eq, Structural, Debug)]
pub enum ElementType {
    Text,
    Image,
}

/// One inline element of an article: text, or an image with its source URL
/// when one was given.
#[derive(Clone, Debug)]
pub struct Element {
    pub typ: ElementType,
    pub image_src: Option<String>,
}

/// What the article widget was asked to show, before the preview's own
/// defaults apply.
pub struct Builder {
    pub elements: Option<Vec<Element>>,
    pub max_rows: usize,
    pub break_anywhere: bool,
    pub overflow_character: Option<char>,
    pub fulltext: Option<String>,
    pub title: String,
}

/// The preview card of one article.
pub struct Preview {
    pub elements: Option<Vec<Element>>,
    pub scroll_area_id: u128,
    pub max_rows: usize,
    pub break_anywhere: bool,
    pub overflow_character: Option<char>,
    pub fulltext: Option<String>,
    pub max_images_num: usize,
    pub title: String,
}

/// The body text shown when an article has no content.
pub open spec fn no_body_text() -> Seq<char> {
    "No content..."@
}

/// The image source an element contributes to the thumbnail strip:
/// its URL if it is an image and has one, nothing otherwise.
pub open spec fn src_of(e: Element) -> Seq<Seq<char>> {
    if e.typ == ElementType::Image && e.image_src is Some {
        seq![e.image_src->Some_0@]
    } else {
        Seq::<Seq<char>>::empty()
    }
}

/// The source URLs of all the images among `s`, in order.
pub open spec fn image_sources(s: Seq<Element>) -> Seq<Seq<char>>
    decreases s.len(),
{
    if s.len() == 0 {
        Seq::<Seq<char>>::empty()
    } else {
        image_sources(s.drop_last()) + src_of(s.last())
    }
}

/// The image sources the thumbnail strip shows: the first `max` of the
/// images among `s`, in order, or all of them if there are fewer.
pub open spec fn shown_images(s: Seq<Element>, max: int) -> Seq<Seq<char>> {
    if image_sources(s).len() <= max {
        image_sources(s)
    } else {
        image_sources(s).take(max)
    }
}

impl Preview {
    /// The preview of what the builder describes: its fields carried over,
    /// a thumbnail strip capped at three images, and a fresh identifier for
    /// the strip's scroll area.
    pub fn from(builder: Builder) -> (p: Preview)
        ensures
            p.elements == builder.elements,
            p.max_rows == builder.max_rows,
            p.break_anywhere == builder.break_anywhere,
            p.overflow_character == builder.overflow_character,
            p.fulltext == builder.fulltext,
            p.max_images_num == 3,
            p.title == builder.title,
    {
        Preview {
            elements: builder.elements,
            scroll_area_id: fresh_id(),
            max_rows: builder.max_rows,
            break_anywhere: builder.break_anywhere,
            overflow_character: builder.overflow_character,
            fulltext: builder.fulltext,
            max_images_num: 3,
            title: builder.title,
        }
    }

    /// The body text of the card: the article's full text, or the
    /// placeholder when there is none.
    pub fn preview_text(&self) -> (r: String)
        ensures
            r@ == match self.fulltext {
                Some(t) => t@,
                None => no_body_text(),
            },
    {
        match &self.fulltext {
            Some(t) => t.clone(),
            None => "No content...".to_owned(),
        }
    }

    /// The source URLs of the images the card shows: the first
    /// `max_images_num` image elements that carry a source, in order.
    /// An article without elements shows none.
    pub fn preview_images(&self) -> (r: Vec<String>)
        ensures
            match self.elements {
                Some(elems) => r.deep_view() == shown_images(elems@, self.max_images_num as int),
                None => r@.len() == 0,
            },
    {
        let mut r: Vec<String> = Vec::new();
        match &self.elements {
            None => r,
            Some(elems) => {
                let max: usize = self.max_images_num;
                let n: usize = elems.len();
                let mut i: usize = 0;
                proof {
                    assert(elems@.take(0) =~= Seq::<Element>::empty());
                    assert(r.deep_view() =~= shown_images(elems@.take(0), max as int));
                }
                while i < n
                    invariant
                        0 <= i <= n == elems@.len(),
                        r@.len() <= max,
                        r@.len() == max || r@.len() == image_sources(elems@.take(i as int)).len(),
                        r.deep_view() == shown_images(elems@.take(i as int), max as int),
                    decreases n - i,
                {
                    let ghost prefix = elems@.take(i as int);
                    let ghost next = elems@.take(i as int + 1);
                    proof {
                        assert(next.drop_last() =~= prefix);
                        assert(next.last() == elems@[i as int]);
                    }
                    let e = &elems[i];
                    let is_image = element_is_image(e);
                    if is_image && r.len() < max {
                        match &e.image_src {
                            Some(src) => {
                                let ghost before = r.deep_view();
                                r.push(src.clone());
                                proof {
                                    assert(r.deep_view() =~= before.push(src@));
                                    assert(image_sources(next) =~= image_sources(prefix) + seq![
                                        src@,
                                    ]);
                                    assert(r.deep_view() =~= shown_images(next, max as int));
                                }
                            },
                            None => {
                                proof {
                                    assert(image_sources(next) =~= image_sources(prefix));
                                }
                            },
                        }
                    } else {
                        proof {
                            if src_of(elems@[i as int]).len() == 0 {
                                assert(image_sources(next) =~= image_sources(prefix));
                            } else {
                                assert(r@.len() == max);
                                assert(image_sources(prefix).len() >= max);
                                assert(image_sources(next) =~= image_sources(prefix) + src_of(
                                    elems@[i as int],
                                ));
                                assert(image_sources(next).take(max as int)
                                    =~= image_sources(prefix).take(max as int));
                                assert(shown_images(next, max as int) == shown_images(
                                    prefix,
                                    max as int,
                                ));
                            }
                        }
                    }
                    i += 1;
                }
                proof {
                    assert(elems@.take(n as int) =~= elems@);
                }
                r
            },
        }
    }
}

/// Whether an element is an image element.
fn element_is_image(e: &Element) -> (r: bool)
    ensures
        r == (e.typ == ElementType::Image),
{
    match e.typ {
        ElementType::Image => true,
        ElementType::Text => false,
    }
}

} // verus!
