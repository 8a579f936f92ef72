//! The texts of the error messages that MATLAB shows when a request is
//! refused, as the rule tables in `rules` refer to them.

use vstd::prelude::*;

verus! {

pub const BACKGROUND_USAGE: &'static str = "Please provide the screen, whose background color should be changed,\n                    as well as the 4 RGBA components for the new background color.";

pub const NO_OUTPUT_VARIABLE: &'static str = "It does not make sense to have an output variable for this function.\n                    Please remove the output variable on the left hand side of the equals sign.";

pub const SCREEN_EXPECTED: &'static str = "Please make sure that the first argument is a valid screen.";

pub const BACKGROUND_REALS: &'static str = "Please make sure that the R, G, B, and A components of the requested color\n                    are all real numbers.";

pub const COLOR_MODE_USAGE: &'static str = "Please provide the screen, whose color mode should be changed,\n                    and the desired color mode.";

pub const STROKE_USAGE: &'static str = "Please provide the screen, whose stroke color should be changed,\n                    as well as the 4 RGBA components for the new stroke color.";

pub const STROKE_REALS: &'static str = "Please make sure that the R, G, B, and A components of the\n                    requested color are all real numbers.";

pub const STROKE_ON_USAGE: &'static str = "Please provide a screen, for which you want to activate stroke drawing.";

pub const STROKE_OFF_USAGE: &'static str = "Please provide the screen, for which you want to de-activate stroke drawing.";

pub const NO_OUTPUT_VARIABLE_WRAPPED: &'static str = "It does not make sense to have an output variable for this function.\n                    Please remove the output variable on the left hand side of the equals\n                    sign.";

pub const FILL_USAGE: &'static str = "Please provide the screen, whose fill color should be changed,\n                    as well as the 4 RGBA components for the new fill color.";

pub const FILL_REALS: &'static str = "Please make sure that the R, G, B, and A components of the requested\n                    color are all real numbers.";

pub const FILL_ON_USAGE: &'static str = "Please provide the screen, for which you want to activate fill\n                    drawing.";

pub const FILL_OFF_USAGE: &'static str = "Please provide the screen, for which you want to de-activate fill\n                    drawing.";

pub const FRAME_COUNT_USAGE: &'static str = "Please provide the screen, whose frame count you would like to know.";

pub const ONE_OUTPUT_AT_MOST: &'static str = "Please have at most one output argument for this function.\n                    Remove any extra variable names from the left-hand side of\n                    the equals sign.";

pub const SET_FRAME_RATE_USAGE: &'static str = "Please provide the screen, whose frame rate you would like to change,\n                    as well as the new frame rate.";

pub const SET_FRAME_RATE_REALS: &'static str = "Please make sure that the second argument is a positive number (i.e., >=0).";

pub const GET_FRAME_RATE_USAGE: &'static str = "Please provide the screen, whose frame rate you would like to know.";

pub const HEIGHT_USAGE: &'static str = "Please provide the screen, whose height you would like to know.";

pub const WIDTH_USAGE: &'static str = "Please provide the screen, whose width you would like to know.";

pub const SMOOTH_USAGE: &'static str = "Please provide the screen, for which you would like to activate smoothed\n                    drawing.";

pub const NO_SMOOTH_USAGE: &'static str = "Please provide the screen, for which you would like to de-activate smoothed\n                    drawing.";

pub const NO_CURSOR_USAGE: &'static str = "Please provide the screen, whose cursor you would like to hide.";

pub const FOCUSED_USAGE: &'static str = "Please provide the screen that you would like to be brought to the\n                    foreground and focused for input.";

pub const CURSOR_USAGE: &'static str = "Please provide the screen, for which you would like to re-enable display of the cursor,\n                    as well as the particular cursor type you would like.";

pub const RESET_CURSOR_USAGE: &'static str = "Please provide the screen, whose default cursor settings (i.e., display\n                    cursor with default OS mouse pointer icon) you would like to re-enable.";

pub const FRAMEBUFFER_USAGE: &'static str = "Please provide the screen, whose framebuffer should have a texture attached to it.\n                    Also, please provide the texture. All drawing to the requested framebuffer will\n                    be copied to the texture, which can be later displayed on to the screen.";

pub const FRAMEBUFFER_HANDLES: &'static str = "Please make sure that the first argument is a valid screen\n                    and that the second argument is a valid texture.";

pub const FRAMEBUFFER_KIND: &'static str = "Please make sure that the second argument is a valid texture.";

pub const CLEAR_FRAMEBUFFER_USAGE: &'static str = "Please provide the screen, whose framebuffer should be cleared to a given color.\n                    Also, please provide the associated framebuffer that should be cleared, as well\n                    as the 4 RGBA components for the color.";

pub const CLEAR_FRAMEBUFFER_HANDLES: &'static str = "Please make sure that the first argument is a valid screen\n                    and that the second argument is a valid framebuffer.";

pub const CLEAR_FRAMEBUFFER_KIND: &'static str = "Please make sure that the second argument is a valid framebuffer.";

pub const DRAW_ONTO_FRAMEBUFFER_USAGE: &'static str = "Please provide the screen, onto whose framebuffer you would like to draw\n                    a given shape. Also, please provide the associated framebuffer and the \n                    shape that should be drawn.";

pub const DRAW_ONTO_FRAMEBUFFER_HANDLES: &'static str = "Please make sure that the first argument is a valid screen,\n                    that the second argument is a valid shape, and that the third\n                    argument is a valid framebuffer.";

pub const DRAW_ONTO_FRAMEBUFFER_KIND: &'static str = "Please make sure that the second argument is a valid shape.";

pub const DRAW_ONTO_FRAMEBUFFER_KIND_2: &'static str = "Please make sure that the third argument is a valid framebuffer.";

pub const LOAD_IMAGE_USAGE: &'static str = "Please provide the filename of the image that should be loaded.";

pub const IMAGE_MODE_USAGE: &'static str = "Please provide the screen, whose image drawing mode should be\n                    changed, as well as the new image drawing mode.";

pub const NO_TINT_USAGE: &'static str = "Please provide the screen, where all image tinting should\n                    be disabled.";

pub const SAVE_USAGE: &'static str = "Please provide the screen, whose current display should be saved\n                    to an image. Please also provide the filename where the image should\n                    be saved. Note that currently, Strobe can only save PNG images, so\n                    be sure that the file extension in the file name is \".png\".";

pub const KEY_PRESS_USAGE: &'static str = "Please provide the screen, whose keyboard input queue should be checked\n                    for the given keypress. Please also provide the specific keyboard button\n                    that should be checked for (It is easiest to use the convenient Key class).";

pub const KEY_PRESS_KEY: &'static str = "Please make sure that the second argument is a single valid key button.\n                    It is easiest to use the convenient Key class. Please see the Strobe\n                    documentation for details.";

pub const SPACE_WAIT_USAGE: &'static str = "Please provide the screen that will receive keyboard input and halt\n                    all execution of the program until the space bar is pressed.";

pub const MOUSE_PRESS_USAGE: &'static str = "Please provide the screen, whose mouse input queue should be checked\n                    for the given button press. Please also provide the specific mouse button\n                    that should be checked for (It is easiest to use the convenient MouseButton class.).";

pub const MOUSE_PRESS_KEY: &'static str = "Please make sure that the second argument is a single valid mouse button.\n                    It is easiest to use the convenient MouseButton class. Please see the Strobe\n                    documentation for details.";

pub const MOUSE_RELEASE_USAGE: &'static str = "Please provide the screen, whose mouse input queue should be checked\n                    for the given keypress. Please also provide the specific mouse button\n                    that should be checked for.";

pub const MOUSE_X_USAGE: &'static str = "Please provide the screen that should be used for computing\n                    the current relative X-coordinate of the mouse.";

pub const MOUSE_Y_USAGE: &'static str = "Please provide the screen that should be used for computing\n                    the current relative Y-coordinate of the mouse.";

pub const MOULD_USAGE: &'static str = "Please provide the shape and shader that should be merged into a\n                    Mould.";

pub const MOULD_HANDLES: &'static str = "Please make sure that the first argument is a valid shape and\n                    that the second argument is a valid shader.";

pub const MOULD_KIND: &'static str = "Please make sure that the first argument is a valid shape.";

pub const MOULD_KIND_2: &'static str = "Please make sure that the second argument is a valid shader.";

pub const DRAW_MOULD_USAGE: &'static str = "Please provide the Mould that should be drawn and which screen\n                    it should be drawn to.";

pub const DRAW_MOULD_HANDLES: &'static str = "Please make sure that the first argument is a valid screen\n                    and that the second argument is a valid Mould.";

pub const DRAW_MOULD_KIND: &'static str = "Please make sure that the second argument is a valid Mould.";

pub const BLEND_MODE_USAGE: &'static str = "Please provide the screen, whose blend mode should be changed.\n                    Please also provide the specific blend mode that you would like.";

pub const SCREEN_USAGE: &'static str = "Please provide the width and height for the new screen, as well as the following parameters:\n\nFullscreen = true/false,\nPreserve Aspect Ratio = true/false,\nHeadless = true/false.";

pub const SCREEN_ONE_OUTPUT: &'static str = "Please have at most one output argument for this function.\n                    Remove any extra variable names from the left-hand side of the equals sign.";

pub const SCREEN_REALS: &'static str = "Please make sure that the first and second arguments\n                    (width and height of requsted screen) are positive valued\n                    single numbers that are greater than zero.";

pub const SCREEN_FLAGS: &'static str = "Please make sure that the third, fourth, and fifth arguments\n                    are all logical values (i.e., true or false).";

pub const REVEAL_USAGE: &'static str = "Please provide the screen, whose display should be updated\n                    to the visual result of all of the most recent drawing commands.\n                    This is known as \"flipping\" or \"swapping\" in other graphics packages.";

pub const END_DRAWING_USAGE: &'static str = "Please provide the screen that should be closed, ending its drawing\n                    session and clearing all of its resources from memory. Any subsequent\n                    attempts to draw to this screen will result in an error.";

pub const LOAD_FRAG_SHADER_USAGE: &'static str = "Please provide the screen, whose rendering context\n                    will be used to load the fragment shader. Please\n                    also provide the filename of the fragment shader.";

pub const SHADER_USAGE: &'static str = "Please provide the name of the shader that will apply\n                    to future rendering operations for the given screen.\n                    Please also provide that screen.";

pub const SHADER_HANDLES: &'static str = "Please make sure that the first argument is a valid screen\n                    and that the second argument is a valid shader.";

pub const RESET_SHADER_USAGE: &'static str = "Please provide the screen that should be reset to its default\n                    rendering shader.";

pub const ARC_USAGE: &'static str = "Please provide a screen for creating the desired arc.\n                    Please also provide the following parameters:\n                    xc = x-coordinate of center,\n                    yc = y-coordinate of center,\n                    zc = z-coordinate of center,\n                    w = width of bounding box,\n                    h = height of bounding box,\n                    start = angle relative to positive half of x-axis (i.e., the right half) of screen\n                    from which the arc should start, \n                    stop = angle relative to positive half of x-axis (i.e., the right half) of screen\n                    at which the arc should stop.";

pub const SHAPE_DIMENSIONS_REAL: &'static str = "Please make sure that all arguments that specify the dimensions of the requested shape\n                    are valid real numbers.";

pub const ELLIPSE_USAGE: &'static str = "Please provide a screen for creating the desired ellipse.\n                    Please also provide the following parameters:\n                    xc = x-coordinate of center,\n                    yc = y-coordinate of center,\n                    zc = z-coordinate of center,\n                    w = width of bounding box,\n                    h = height of bounding box.";

pub const LINE_USAGE: &'static str = "Please provide a screen for creating the desired line.\n                    Please also provide the following parameters:\n                    x1 = x-coordinate of one endpoint of line,\n                    y1 = y-coordinate of one endpoint of line,\n                    z1 = z-coordinate of one endpoint of line,\n                    x2 = x-coordinate of other endpoint of line,\n                    y2 = y-coordinate of other endpoint of line,\n                    z2 = z-coordinate of other endpoint of line";

pub const POINT_USAGE: &'static str = "Please provide a screen for creating the desired point.\n                    Please also provide the following parameters:\n                    x = x-coordinate of point,\n                    y = y-coordinate of point,\n                    z = z-coordinate of point";

pub const QUAD_USAGE: &'static str = "Please provide a screen for creating the desired quadrilateral.\n                    Please also provide the following parameters:\n                    x1 = x-coordinate of top left vertex,\n                    y1 = y-coordinate of top left vertex,\n                    z1 = z-coordinate of top left vertex,\n                    x2 = x-coordinate of top right vertex,\n                    y2 = y-coordinate of top right vertex,\n                    z2 = z-coordinate of top right vertex,\n                    x3 = x-coordinate of bottom right vertex,\n                    y3 = y-coordinate of bottom right vertex,\n                    z3 = z-coordinate of bottom right vertex,\n                    x4 = x-coordinate of bottom left vertex,\n                    y4 = y-coordinate of bottom left vertex,\n                    z4 = z-coordinate of bottom left vertex.";

pub const TRIANGLE_USAGE: &'static str = "Please provide a screen for creating the desired triangle.\n                    Please also provide the following parameters:\n                    x1 = x-coordinate of top vertex,\n                    y1 = y-coordinate of top vertex,\n                    z1 = z-coordinate of top vertex,\n                    x2 = x-coordinate of bottom right vertex,\n                    y2 = y-coordinate of bottom right vertex,\n                    z2 = z-coordinate of bottom right vertex,\n                    x3 = x-coordinate of bottom left vertex,\n                    y3 = y-coordinate of bottom left vertex,\n                    z3 = z-coordinate of bottom left vertex";

pub const RECT_USAGE: &'static str = "Please provide a screen for creating the desired rectangle.\n                    Please also provide the following parameters:\n                    xtopleft = x-coordinate of top left vertex,\n                    ytopleft = y-coordinate of top left vertex,\n                    ztoplift = z-coordinate of top left vertex,\n                    width = width of rectangle,\n                    height = height of rectangle";

pub const CUBE_USAGE: &'static str = "Please provide a screen for creating the desired cube.\n                    Please also provide the following parameter:\n                    s = size of cube";

pub const DRAW_USAGE: &'static str = "Please provide the screen, where you want the shape to be drawn.\n                    Please also provide the shape.";

pub const DRAW_HANDLES: &'static str = "Please make sure that the first argument is a valid screen\n                    and that the second argument is a valid shape.";

pub const STROKE_WEIGHT_USAGE: &'static str = "Please provide the screen, where you want to change the weight\n                    of the lines used for drawing the stroke. Please also provide\n                    the new weight.";

pub const ELLIPSE_MODE_USAGE: &'static str = "Please provide the screen, where you want to change the drawing\n                    mode for ellipses. Please also provide the desired mode.";

pub const RECT_MODE_USAGE: &'static str = "Please provide the screen, where you want to change the drawing\n                    mode for rectangles. Please also provide the desired mode.";

pub const SHAPE_MODE_USAGE: &'static str = "Please provide the screen, where you want to change the drawing\n                    mode for general shapes. Please also provide the desired mode.";

pub const TEXTURE_USAGE: &'static str = "Please provide the screen, whose rendering context will contain\n                    the desired texure. Please also provide the image for\n                    generating that texture.";

pub const TEXTURE_KIND: &'static str = "Please make sure that the second argument is a valid Strobe image.";

pub const ATTACH_TEXTURE_USAGE: &'static str = "Please provide the shape to which the texture should be\n                    attached (for the moment, only rectangles are supported).\n                    Please also provide the texture.";

pub const ATTACH_TEXTURE_HANDLES: &'static str = "Please make sure that the first argument is a valid shape (at the moment, only\n                    rectangles can hold textures) and that the second argument is a valid texture.";

pub const ATTACH_TEXTURE_KIND: &'static str = "Please make sure that the second argument is a valid shape (at the moment, only\n                        rectangles can hold textures).";

pub const APPLY_MATRIX_USAGE: &'static str = "Please provide the screen, whose rendering context will be\n                    transformed by the given matrix. Please be sure to provide all\n                    16 elements of the 4x4 transformation matrix (see Strobe documentation\n                    for more details).";

pub const APPLY_MATRIX_REALS: &'static str = "Please make sure that all arguments that specify the elements of the transform matrix\n                    are valid real numbers.";

pub const POP_MATRIX_USAGE: &'static str = "Please provide the screen, to which you will apply the most\n                    recently saved transformation matrix (stored in the transformation matrix stack;\n                    see Strobe documentation for more details).";

pub const PUSH_MATRIX_USAGE: &'static str = "Please provide the screen, for which you will save the\n                    currently applied transformation matrix (stored in the transformation matrix stack;\n                    see Strobe documentation for more details).";

pub const RESET_MATRIX_USAGE: &'static str = "Please provide the screen, whose associated transformation will be reset\n                    to the default (i.e., the 4x4 identity matrix; see Strobe documentation\n                    for more details).";

pub const ROTATE_USAGE: &'static str = "Please provide the screen, whose rendering context will be rotated\n                    by a given angle about a given axis. Please make sure to also provide\n                    the angle and the 3 components of the desired rotation axis.";

pub const ROTATE_REALS: &'static str = "Please make sure that all arguments that specify the angle of rotation and the\n                    rotation axis are real numbers.";

pub const ROTATE_X_USAGE: &'static str = "Please provide the screen, whose rendering context will be rotated\n                    by a given angle about the X-axis. Please make sure to also provide\n                    the angle.";

pub const ROTATE_X_REALS: &'static str = "Please make sure that the rotation angle about the X-axis is a real number.";

pub const ROTATE_Y_USAGE: &'static str = "Please provide the screen, whose rendering context will be rotated\n                    by a given angle about the Y-axis. Please make sure to also provide\n                    the angle.";

pub const ROTATE_Y_REALS: &'static str = "Please make sure that the rotation angle about the Y-axis is a real number.";

pub const ROTATE_Z_USAGE: &'static str = "Please provide the screen, whose rendering context will be rotated\n                    by a given angle about the Z-axis. Please make sure to also provide\n                    the angle.";

pub const ROTATE_Z_REALS: &'static str = "Please make sure that the rotation angle about the Z-axis is a real number.";

pub const SCALE_USAGE: &'static str = "Please provide the screen, whose rendering context will be scaled\n                    along the X-, Y-, and Z-axes. Please make sure to also provide\n                    the 3 scaling components (X, Y, and Z).";

pub const SCALE_REALS: &'static str = "Please make sure that the 3 scaling factors (X, Y, and Z) are real numbers.";

pub const SHEAR_X_USAGE: &'static str = "Please provide the screen, whose rendering context will be sheared\n                    by a given angle along the X-axis. Please make sure to also provide\n                    the shearing angle.";

pub const SHEAR_X_REALS: &'static str = "Please make sure that the shearing angle is a real number.";

pub const SHEAR_Y_USAGE: &'static str = "Please provide the screen, whose rendering context will be sheared\n                    by a given angle along the Y-axis. Please make sure to also provide\n                    the shearing angle.";

pub const TRANSLATE_USAGE: &'static str = "Please provide the screen, whose rendering context will be translated\n                    by the given translation vector. Please make sure to also provide\n                    the 3 components (X, Y, and Z) of the desired translation vector.";

pub const TRANSLATE_REALS: &'static str = "Please make sure that the 3 components (X, Y, and Z) of the translation\n                    vector are real numbers.";

pub const PRINT_MATRIX_USAGE: &'static str = "Please provide the screen, whose current transformation matrix\n                    you would like to print out.";

pub const UNIFORM_USAGE: &'static str = "Please provide the shader, whose uniform value you would like to change,\n                    as well as the name of the uniform and its new value.";

pub const SHADER_EXPECTED: &'static str = "Please make sure that the first argument is a valid shader.";

pub const SHADER_SET_I8_VALUE: &'static str = "Please make sure that the fourth argument is an 8-bit integer (int8).";

pub const SHADER_SET_U8_VALUE: &'static str = "Please make sure that the fourth argument is an unsigned 8-bit integer (uint8).";

pub const SHADER_SET_I16_VALUE: &'static str = "Please make sure that the fourth argument is a 16-bit integer (int16).";

pub const SHADER_SET_U16_VALUE: &'static str = "Please make sure that the fourth argument is an unsigned 16-bit integer (uint16).";

pub const SHADER_SET_I32_VALUE: &'static str = "Please make sure that the fourth argument is a 32-bit integer (int32).";

pub const SHADER_SET_U32_VALUE: &'static str = "Please make sure that the fourth argument is an unsigned 32-bit integer (uint32).";

pub const SHADER_SET_I64_VALUE: &'static str = "Please make sure that the fourth argument is a 64-bit integer (int64).";

pub const SHADER_SET_U64_VALUE: &'static str = "Please make sure that the fourth argument is an unsigned 64-bit integer (uint64).";

pub const SHADER_SET_F32_VALUE: &'static str = "Please make sure that the fourth argument is a single (32-bit floating point number).";

pub const SHADER_SET_F64_VALUE: &'static str = "Please make sure that the fourth argument is a double (64-bit floating point number).";

pub const SHADER_SET_BOOL_VALUE: &'static str = "Please make sure that the fourth argument is a boolean (logical value -> true or false).";

pub const SHADER_SET_TEX_HANDLES: &'static str = "Please make sure that the first argument is a valid shader and that the\n                    third argument is a valid texture.";

pub const SHADER_SET_TEX_KIND: &'static str = "Please make sure that the thrid argument is a valid texture.";

pub const DROP_SCREEN_USAGE: &'static str = "Please provide the screen that should be dropped.";

pub const DROP_SHAPE_USAGE: &'static str = "Please provide the shape that should be dropped.";

pub const DROP_TEXTURE_USAGE: &'static str = "Please provide the texture that should be dropped.";

pub const DROP_TEXTURE_HANDLES: &'static str = "Please make sure that the first argument is a valid texture.";

pub const DROP_IMAGE_USAGE: &'static str = "Please provide the image that should be dropped.";

pub const DROP_IMAGE_HANDLES: &'static str = "Please make sure that the first argument is a valid image.";

pub const DROP_SHADER_USAGE: &'static str = "Please provide the shader that should be dropped.";

pub const DROP_FBO_USAGE: &'static str = "Please provide the FBO that should be dropped.";

pub const DROP_FBO_HANDLES: &'static str = "Please make sure that the first argument is a valid FBO.";

pub const DROP_MOULD_USAGE: &'static str = "Please provide the Mould that should be dropped.";

pub const DROP_MOULD_HANDLES: &'static str = "Please make sure that the first argument is a valid Mould.";

} // verus!
